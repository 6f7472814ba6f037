//! Upgrading, refreshing and looking at installed Apps.

use shine_core::app_flow::{
    count_privileged_files, count_privileged_receipts, external_cache_outcome,
    external_purge_outcome, installed_categories, select_refreshed, teardown_setup_outcome,
};
use shine_core::app_install::{
    copy_install_reads, decide_copy_install, decide_json_install, decide_json_uninstall,
    desired_app_hash, installed_app_hash, CopyInstall, InstallOutcome, JsonInstall,
    JsonUninstall, UninstallOutcome,
};
use shine_core::app_lifecycle::{app_source_parts, asks_for_admin, AssessedAppFile};
use shine_core::app_refresh::{
    decide_refresh, refresh_candidates, RefreshDecision, RefreshFault, RefreshResult, RefreshRun,
};
use shine_core::app_scope::{teardown_requests, upgrade_entries, ScopeFault};
use shine_core::app_metadata_types::{CategoryToml, DestToml, FileToml, GeneratorToml};
use shine_core::app_types::{
    AppHookPhase, AppLifecycleReport, AppRefreshRequest, AppUpgradeLifecycleReport, AppUpgradeRequest,
    AppArtifact, AppArtifactAction, AppCategory, AppFile, AppFileAction, AppGenerator, AppListMode,
    AppUninstallLifecycleRequest, ArtifactRuntime,
};
use shine_core::app_uninstall::{cache_targets, category_names_of, select_entries};
use shine_core::app_upgrade::{
    asks_to_prune, decide_upgrade, installed_identity, prunes, relocation_cleared,
    relocation_rollback_entry, NewFileStep, UpgradeDecision, UpgradeRun, UpgradeStep,
};
use shine_core::assessed_files::AssessedFiles;
use shine_core::content::hash_content;
use shine_core::context::{EnvValue, RuntimeContext, RuntimePlatform};
use shine_core::inspection::{
    finish_inspection, inspect_app_file, inspected_entry, InspectionChange, InspectionFileStatus,
};
use shine_core::install_drive::StartFault;
use shine_core::json::{managed_json_hash, JsonFault};
use shine_core::lifecycle::{LifecycleEffect, LifecycleOperation, LifecycleStatus};
use shine_core::manifest::{
    AppEntry, AppInstallStrategy, AppManifest, APP_MANIFEST_SCHEMA_VERSION,
};
use shine_core::path::PathStyle;
use shine_core::presets::{PresetSnapshot, PresetSourceKind};
use shine_core::refresh_drive::{RefreshDemand, RefreshDrive, RefreshStartFault};
use shine_core::runtime::CoreRuntime;
use shine_core::upgrade_drive::{UpgradeDemand, UpgradeDrive};
use std::collections::BTreeMap;

fn generator(auto: bool) -> AppGenerator {
    AppGenerator {
        script: "make.sh".to_string(),
        runtime: ArtifactRuntime::Native,
        env: Vec::new(),
        when_env: "TOKEN".to_string(),
        auto,
    }
}

fn file(source: &str) -> AppFile {
    AppFile {
        source_rel: source.to_string(),
        target_rel: source.to_string(),
        destination_root: None,
        description: None,
        display_name: None,
        legacy_dest_annotation: None,
        transforms: Vec::new(),
        install_strategy: AppInstallStrategy::Copy,
        requires_admin: false,
        restart_hint: None,
        generator: None,
    }
}

fn category(name: &str, files: Vec<AppFile>) -> AppCategory {
    AppCategory {
        name: name.to_string(),
        description: None,
        destination_root: None,
        files,
        list_mode: AppListMode::Files,
        post_upgrade: Vec::new(),
        post_install: Vec::new(),
        uses_metadata: true,
        has_explicit_files: true,
        artifact: None,
        permissions: None,
    }
}

fn assessed(file: AppFile, content: Option<&[u8]>) -> AssessedAppFile {
    AssessedAppFile {
        category: "demo".to_string(),
        destination: format!("/home/test/{}", file.source_rel),
        file,
        content: content.map(|bytes| bytes.to_vec()),
        generator_error: None,
    }
}

fn entry(source: &str, destination: &str, content: &[u8]) -> AppEntry {
    AppEntry {
        source: source.to_string(),
        destination: destination.to_string(),
        backup: None,
        content_hash: hash_content(content),
        install_strategy: AppInstallStrategy::Copy,
        uses_env: false,
        requires_admin: false,
    }
}

fn manifest(entries: Vec<AppEntry>) -> AppManifest {
    let mut manifest = AppManifest::default();
    manifest.entries = entries;
    manifest
}

#[test]
fn an_upgrade_replaces_only_what_was_installed() {
    let installed = hash_content(b"one");
    let newer = hash_content(b"two");
    let touched = hash_content(b"mine");
    let decide = |desired, current, relocated, occupied| {
        decide_upgrade(installed, desired, current, relocated, occupied)
    };
    assert_eq!(decide(installed, Some(installed), false, false), UpgradeDecision::Unchanged);
    assert_eq!(
        decide(newer, Some(installed), false, false),
        UpgradeDecision::Install { relocated: false }
    );
    assert_eq!(decide(newer, None, false, false), UpgradeDecision::Install { relocated: false });
    assert_eq!(decide(newer, Some(touched), false, false), UpgradeDecision::UserModified);
    assert_eq!(decide(newer, Some(touched), true, true), UpgradeDecision::Occupied);
    assert_eq!(
        decide(installed, Some(installed), true, false),
        UpgradeDecision::Install { relocated: true }
    );
}

#[test]
fn an_upgrade_that_moves_a_file_moves_its_receipt() {
    let old = entry("app/demo/config", "/home/test/old", b"one");
    let mut config = file("config");
    config.restart_hint = Some("restart demo".to_string());
    let assessment = assessed(config, Some(b"two"));
    let mut run = UpgradeRun::start(manifest(vec![old.copied()]));
    assert!(matches!(run.consider(&assessment, "demo", "config"), UpgradeStep::Weigh));
    let decision = UpgradeDecision::Install { relocated: true };
    assert!(run.settle(decision, &assessment, "demo", "config"));
    run.record_upgraded(&old, &assessment, "demo", "config", hash_content(b"two"), true);
    assert!(run.manifest().find_by_dest("/home/test/old").is_none());
    let moved = run.manifest().find_by_dest("/home/test/config").unwrap();
    assert_eq!(moved.source, "app/demo/config");
    assert_eq!(moved.content_hash, hash_content(b"two"));
    assert_eq!(run.changed(), &vec!["demo".to_string()]);
    assert_eq!(run.report().restart_hints, vec!["restart demo".to_string()]);
    assert_eq!(
        run.report().lifecycle.outcomes[0].effects,
        vec![
            LifecycleEffect::ResourceWritten,
            LifecycleEffect::ReceiptWritten,
            LifecycleEffect::ResourceRemoved,
        ]
    );
}

#[test]
fn an_upgrade_leaves_what_the_user_changed_and_what_is_refreshed_by_hand() {
    let held = entry("app/demo/config", "/home/test/config", b"one");
    let assessment = assessed(file("config"), Some(b"two"));
    let mut run = UpgradeRun::start(manifest(vec![held.copied()]));
    assert!(!run.settle(UpgradeDecision::UserModified, &assessment, "demo", "config"));
    assert!(!run.settle(UpgradeDecision::Unchanged, &assessment, "demo", "config"));
    assert!(!run.settle(UpgradeDecision::Occupied, &assessment, "demo", "config"));
    assert_eq!((run.report().user_modified, run.report().skipped), (2, 3));
    let mut manual = assessed(file("config"), Some(b"two"));
    manual.file.generator = Some(generator(false));
    assert!(matches!(run.consider(&manual, "demo", "config"), UpgradeStep::Recorded));
    assert_eq!(
        run.report().lifecycle.outcomes.last().unwrap().diagnostic_codes,
        vec!["app_manual_refresh_required".to_string()]
    );
    let mut failed = assessed(file("config"), None);
    failed.generator_error = Some("no network".to_string());
    assert!(matches!(run.consider(&failed, "demo", "config"), UpgradeStep::Recorded));
    assert_eq!(run.report().failed, 1);
    assert_eq!(run.report().files.last().unwrap().generator_error.as_deref(), Some("no network"));
    let empty = assessed(file("config"), None);
    assert!(matches!(run.consider(&empty, "demo", "config"), UpgradeStep::MissingContent));
    assert_eq!(run.manifest().entries.len(), 1);
    assert!(run.changed().is_empty());
}

#[test]
fn receipts_without_a_source_are_kept_or_pruned() {
    let stale = entry("app/demo/gone", "/home/test/gone", b"one");
    let mut run = UpgradeRun::start(manifest(vec![stale.copied()]));
    run.skip_invalid_source();
    assert_eq!(run.report().lifecycle.outcomes[0].target, "app/unknown");
    assert_eq!(
        run.report().lifecycle.outcomes[0].diagnostic_codes,
        vec!["app_manifest_source_invalid".to_string()]
    );
    run.keep_stale("demo", "gone");
    assert_eq!(run.report().skipped, 2);
    run.record_pruned(&stale, "demo", "gone", UninstallOutcome::UserModified);
    assert_eq!(run.manifest().entries.len(), 1);
    assert_eq!((run.report().skipped, run.report().user_modified), (3, 1));
    run.record_pruned(&stale, "demo", "gone", UninstallOutcome::Removed);
    assert!(run.manifest().entries.is_empty());
    assert_eq!(run.changed(), &vec!["demo".to_string()]);
    assert!(asks_to_prune(false, true) && !asks_to_prune(true, true));
    assert!(prunes(true, false, false) && prunes(false, true, true));
    assert!(!prunes(false, true, false) && !prunes(false, false, true));
}

#[test]
fn new_files_are_installed_where_nothing_stands() {
    let mut run = UpgradeRun::start(manifest(vec![entry(
        "app/demo/config",
        "/home/test/config",
        b"one",
    )]));
    let known = assessed(file("config"), Some(b"one"));
    assert!(matches!(run.consider_new(&known, false), NewFileStep::Done));
    let new = assessed(file("theme"), Some(b"dark"));
    assert!(matches!(run.consider_new(&new, true), NewFileStep::Done));
    assert_eq!(
        run.report().lifecycle.outcomes.last().unwrap().status,
        LifecycleStatus::Conflict
    );
    assert!(matches!(run.consider_new(&new, false), NewFileStep::Install));
    run.record_new(&new, InstallOutcome::Installed { hash: hash_content(b"dark") });
    assert_eq!(
        run.manifest().find_by_source("app/demo/theme").unwrap().content_hash,
        hash_content(b"dark")
    );
    let empty = assessed(file("empty"), None);
    assert!(matches!(run.consider_new(&empty, false), NewFileStep::Done));
    assert_eq!(run.report().failed, 1);
    run.record_failed(&new, "demo", "theme", "app_install_failed", "disk full".to_string());
    assert_eq!(run.report().files.last().unwrap().error.as_deref(), Some("disk full"));
    run.record_relocation_rollback("demo", "theme");
    assert_eq!(run.report().failed, 3);
}

#[test]
fn a_failed_move_is_rolled_back_by_its_own_receipt() {
    assert!(relocation_cleared(&Ok(UninstallOutcome::Removed)));
    assert!(relocation_cleared(&Ok(UninstallOutcome::NotFound)));
    assert!(!relocation_cleared(&Ok(UninstallOutcome::UserModified)));
    assert!(!relocation_cleared(&Err("denied".to_string())));
    let mut old = entry("app/demo/config", "/home/test/old", b"one");
    old.backup = Some("/home/test/old.bak".to_string());
    let assessment = assessed(file("config"), Some(b"two"));
    let rollback = relocation_rollback_entry(&old, &assessment, 7);
    assert_eq!(rollback.destination, "/home/test/config");
    assert_eq!(rollback.backup, None);
    assert_eq!(rollback.content_hash, 7);
    assert!(rollback.uses_env);
    assert_eq!(installed_identity(&InstallOutcome::AlreadyManaged, 9), 9);
    assert_eq!(installed_identity(&InstallOutcome::Installed { hash: 3 }, 9), 3);
}

#[test]
fn a_refresh_keeps_what_the_user_changed_unless_forced() {
    assert_eq!(decide_refresh(1, 1, Some(1), false), RefreshDecision::Unchanged);
    assert_eq!(decide_refresh(1, 2, Some(1), false), RefreshDecision::Install);
    assert_eq!(decide_refresh(1, 2, Some(3), false), RefreshDecision::UserModified);
    assert_eq!(decide_refresh(1, 2, Some(3), true), RefreshDecision::Install);
    assert_eq!(decide_refresh(1, 1, None, false), RefreshDecision::Install);
}

#[test]
fn a_refresh_is_recorded_in_receipts_and_reports() {
    let mut made = file("token");
    made.generator = Some(generator(true));
    let mut held = entry("app/demo/token", "/home/test/token", b"one");
    held.backup = Some("/home/test/token.bak".to_string());
    let mut run = RefreshRun::start(manifest(vec![held.copied()]), Vec::new());
    assert_eq!(run.report().lifecycle.operation, LifecycleOperation::Update);
    let results = [
        RefreshResult::Unchanged,
        RefreshResult::UserModified,
        RefreshResult::Failed { error: "no network".to_string() },
    ];
    for result in results {
        run.record("demo", &made, "/home/test/token", &held, result);
    }
    assert!(run.changed().is_empty());
    assert_eq!(run.manifest().entries[0].content_hash, hash_content(b"one"));
    assert_eq!(
        run.report().lifecycle.outcomes[2].diagnostic_codes,
        vec!["app_refresh_failed".to_string()]
    );
    run.record("demo", &made, "/home/test/token", &held, RefreshResult::Installed { hash: 5 });
    assert_eq!(run.changed(), &vec!["demo".to_string()]);
    assert_eq!(run.manifest().entries[0].content_hash, 5);
    assert_eq!(run.manifest().entries[0].backup, held.backup);
    assert!(run.manifest().entries[0].uses_env);
    assert_eq!(run.report().files[3].action, AppFileAction::Installed);
}

#[test]
fn only_installed_generated_files_are_refreshed() {
    let mut made = file("token");
    made.generator = Some(generator(true));
    let demo = category("demo", vec![file("config"), made]);
    let ask = |name: &str| refresh_candidates(&demo, &Some(name.to_string()), PathStyle::Unix);
    let fault = |asked: Result<Vec<usize>, RefreshFault>, name: &str| {
        asked.unwrap_err().message("demo", name)
    };
    assert_eq!(refresh_candidates(&demo, &None, PathStyle::Unix).unwrap(), vec![1]);
    assert_eq!(ask("token").unwrap(), vec![1]);
    assert_eq!(fault(ask("nope"), "nope"), "app 'demo' file not found: nope");
    assert_eq!(fault(ask("config"), "config"), "app 'demo' file is not generated: config");
    let plain = category("demo", vec![file("config")]);
    assert_eq!(
        fault(refresh_candidates(&plain, &None, PathStyle::Unix), ""),
        "app 'demo' has no generated files"
    );
    let places = vec!["/home/test/a".to_string(), "/home/test/b".to_string()];
    let second = manifest(vec![entry("app/demo/b", "/home/test/b", b"")]);
    assert_eq!(select_refreshed(&second, &places, false).unwrap(), vec![1]);
    assert_eq!(
        fault(select_refreshed(&second, &places, true), "a"),
        "app 'demo' generated file is not installed: a"
    );
    assert_eq!(
        fault(select_refreshed(&manifest(Vec::new()), &places, false), ""),
        "app 'demo' has no installed generated files; run `shine install app/demo` first"
    );
}

#[test]
fn an_uninstall_takes_the_receipts_and_the_cache_of_its_target() {
    let receipts = manifest(vec![
        entry("app/demo/config", "/home/test/config", b"one"),
        entry("app/demonstration/config", "/home/test/other", b"one"),
        entry("app/old/config", "/home/test/renamed", b"one"),
    ]);
    let target = Some("demo".to_string());
    let selected =
        select_entries(&receipts, &target, &vec!["/home/test/renamed".to_string()]);
    let sources: Vec<&str> = selected.iter().map(|entry| entry.source.as_str()).collect();
    assert_eq!(sources, vec!["app/demo/config", "app/old/config"]);
    let names = category_names_of(&selected, &target);
    assert_eq!(names, vec!["demo".to_string(), "old".to_string()]);
    let request = |target: Option<&str>, purge| AppUninstallLifecycleRequest {
        target: target.map(str::to_string),
        dry_run: false,
        force: false,
        purge,
    };
    assert_eq!(cache_targets(&request(Some("demo"), true), false, &names), vec!["app/demo"]);
    assert_eq!(cache_targets(&request(None, true), false, &names), vec!["app"]);
    assert_eq!(
        cache_targets(&request(None, false), false, &names),
        vec!["app/demo", "app/old"]
    );
    assert!(cache_targets(&request(None, true), true, &names).is_empty());
}

#[test]
fn external_presets_are_reported_as_left_alone() {
    let cache = external_cache_outcome("demo");
    assert_eq!(cache.target, "app/demo");
    assert_eq!(cache.resource.as_deref(), Some("preset-cache"));
    assert_eq!(cache.status, LifecycleStatus::Skipped);
    assert_eq!(cache.effects, vec![LifecycleEffect::UserResourcePreserved]);
    assert_eq!(cache.diagnostic_codes, vec!["app_external_preset_cache_preserved"]);
    assert_eq!(external_purge_outcome(&None).target, "app");
    let purge = external_purge_outcome(&Some("demo".to_string()));
    assert_eq!((purge.target.as_str(), purge.resource.as_deref()), ("app/demo", Some("purge")));
    let teardown = teardown_setup_outcome("demo");
    assert_eq!(teardown.status, LifecycleStatus::Failed);
    assert_eq!(teardown.resource.as_deref(), Some("artifact:teardown"));
    assert_eq!(teardown.diagnostic_codes, vec!["app_teardown_setup_failed"]);
}

#[test]
fn categories_and_privileged_files_are_counted_once() {
    let mut second = entry("app/demo/b", "/b", b"");
    second.requires_admin = true;
    let entries = vec![
        entry("app/zsh/rc", "/rc", b""),
        entry("app/demo/a", "/a", b""),
        second,
        entry("shell/demo/a", "/c", b""),
    ];
    assert_eq!(installed_categories(&entries), vec!["demo".to_string(), "zsh".to_string()]);
    assert_eq!(count_privileged_receipts(&entries), 1);
    let mut privileged = assessed(file("hosts"), Some(b""));
    privileged.file.requires_admin = true;
    assert_eq!(count_privileged_files(&vec![privileged, assessed(file("a"), None)]), 1);
    assert_eq!(
        app_source_parts("app/demo/a/b"),
        Some(("demo".to_string(), "a/b".to_string()))
    );
    assert_eq!(app_source_parts("shell/demo/a"), None);
}

#[test]
fn an_inspection_tells_changes_from_user_edits() {
    let held = entry("app/demo/config", "/home/test/config", b"one");
    let current = assessed(file("config"), Some(b"one"));
    let newer = assessed(file("config"), Some(b"two"));
    let status = |assessment: &AssessedAppFile, found: Option<&[u8]>| {
        inspect_app_file(assessment, Some(&held), Some(&held), found, true).unwrap().0
    };
    assert_eq!(status(&current, Some(b"one")), InspectionFileStatus::UpToDate);
    assert_eq!(status(&newer, Some(b"one")), InspectionFileStatus::UpdateAvail);
    assert_eq!(status(&newer, Some(b"mine")), InspectionFileStatus::UserModified);
    assert_eq!(status(&newer, None), InspectionFileStatus::Missing);
    let mut failed = assessed(file("config"), None);
    failed.generator_error = Some("no network".to_string());
    assert_eq!(status(&failed, Some(b"one")), InspectionFileStatus::UpToDate);
    let old = entry("app/demo/config", "/home/test/old", b"one");
    let (moved, changes) =
        inspect_app_file(&newer, None, Some(&old), Some(b"one"), true).unwrap();
    assert_eq!(moved, InspectionFileStatus::UpdateAvail);
    assert!(matches!(
        &changes[0],
        InspectionChange::DestinationRelocated { from, to }
            if from == "/home/test/old" && to == "/home/test/config"
    ));
    assert!(InspectionChange::includes_content(&changes));
    let (new, changes) = inspect_app_file(&newer, None, None, None, true).unwrap();
    assert_eq!(new, InspectionFileStatus::UpdateAvail);
    assert!(matches!(&changes[0], InspectionChange::NewFile { .. }));
    let (absent, changes) = inspect_app_file(&newer, None, None, None, false).unwrap();
    assert_eq!(absent, InspectionFileStatus::NotInstalled);
    assert!(changes.is_empty());
}

#[test]
fn merged_files_are_known_by_their_managed_keys() {
    let keys = vec!["theme".to_string()];
    let mut merged = file("settings.json");
    merged.install_strategy = AppInstallStrategy::JsonMerge { managed_keys: keys.clone() };
    let source = br#"{"theme":"dark","other":1}"#;
    let desired = desired_app_hash(&merged, source).unwrap();
    assert_eq!(desired, managed_json_hash(source, &keys).unwrap());
    assert_eq!(
        installed_app_hash(&merged, br#"{"mine":2,"theme":"dark"}"#).unwrap(),
        Some(desired)
    );
    assert_eq!(installed_app_hash(&merged, br#"{"mine":2}"#).unwrap(), None);
    assert_eq!(desired_app_hash(&merged, b"[]").unwrap_err(), JsonFault::SourceNotObject);
    let fault = desired_app_hash(&merged, b"{}").unwrap_err();
    assert_eq!(fault, JsonFault::MissingManagedKey { index: 0 });
    let mut held = entry("app/demo/settings.json", "/home/test/settings.json", b"");
    held.content_hash = desired;
    let assessment = assessed(merged, Some(source));
    let found = inspect_app_file(&assessment, Some(&held), None, Some(b"{}"), true).unwrap();
    assert_eq!(found.0, InspectionFileStatus::Partial);
}

#[test]
fn a_file_is_backed_up_where_shine_does_not_own_it() {
    let decide = |managed, force, exists, current| {
        decide_copy_install(b"new", managed, false, force, exists, current)
    };
    assert_eq!(decide(false, false, false, None), CopyInstall::Write { back_up: false });
    assert_eq!(decide(false, false, true, None), CopyInstall::Write { back_up: true });
    assert!(copy_install_reads(true, true, false));
    assert!(!copy_install_reads(false, true, false));
    assert_eq!(decide(true, false, true, Some(b"new".as_slice())), CopyInstall::AlreadyManaged);
    assert!(asks_for_admin(false, 1, false));
    assert!(!asks_for_admin(true, 1, false) && !asks_for_admin(false, 1, true));
    assert!(!asks_for_admin(false, 0, false));
}

#[test]
fn merged_keys_are_installed_and_taken_out_again() {
    let keys = vec!["theme".to_string()];
    let source: &[u8] = br#"{"theme":"dark"}"#;
    let before: &[u8] = br#"{"mine":1}"#;
    assert!(matches!(
        decide_json_install(source, &keys, true, None).unwrap(),
        JsonInstall::Preview
    ));
    let (written, identity) = match decide_json_install(source, &keys, false, Some(before)) {
        Ok(JsonInstall::Write { content, hash }) => (content, hash),
        other => panic!("not written: {other:?}"),
    };
    assert_eq!(identity, managed_json_hash(source, &keys).unwrap());
    assert!(matches!(
        decide_json_install(source, &keys, false, Some(&written)).unwrap(),
        JsonInstall::AlreadyManaged
    ));
    let left = match decide_json_uninstall(identity, &keys, false, false, Some(&written)) {
        Ok(JsonUninstall::Write { content, forced: false }) => content,
        other => panic!("not removed: {other:?}"),
    };
    let value = |text: &[u8]| serde_json::from_slice::<serde_json::Value>(text).unwrap();
    assert_eq!(value(&left), value(before));
    let touched: &[u8] = br#"{"theme":"light"}"#;
    assert!(matches!(
        decide_json_uninstall(identity, &keys, false, false, Some(touched)).unwrap(),
        JsonUninstall::UserModified
    ));
    assert!(matches!(
        decide_json_uninstall(identity, &keys, false, true, Some(touched)).unwrap(),
        JsonUninstall::Write { forced: true, .. }
    ));
    assert!(matches!(
        decide_json_uninstall(identity, &keys, false, false, None).unwrap(),
        JsonUninstall::NotFound
    ));
}

fn preset_runtime() -> CoreRuntime {
    let file = |name: &str| format!("# @dest ~/.config/{name}\n").into_bytes();
    let presets = PresetSnapshot::builder(PresetSourceKind::Embedded)
        .file("app/demo/config", file("demo"))
        .file("app/zsh/rc", file("zsh"))
        .build();
    let context = RuntimeContext::isolated(
        "/home/test",
        "/home/test/.shine",
        "/home/test/.shine/presets",
        "/home/test/.shine/bin",
        RuntimePlatform::Linux,
    );
    CoreRuntime::new(context, presets)
}

#[test]
fn an_operation_is_about_what_was_asked_for() {
    let runtime = preset_runtime();
    let some = |name: &str| Some(name.to_string());
    let names = |categories: &[AppCategory]| {
        categories.iter().map(|category| category.name.clone()).collect::<Vec<_>>()
    };
    assert_eq!(names(&runtime.install_scope(&None).unwrap()), ["demo", "zsh"]);
    assert_eq!(names(&runtime.install_scope(&some("demo")).unwrap()), ["demo"]);
    let missing = runtime.install_scope(&some("nope")).unwrap_err();
    assert!(matches!(missing, ScopeFault::CategoryNotFound));
    assert_eq!(missing.message("nope"), "app preset category not found: nope");
    let demo = runtime.install_scope(&some("demo")).unwrap().remove(0);
    let place = runtime.app_destination(&demo, &demo.files[0]).unwrap();
    let receipts = manifest(vec![
        entry("app/old/config", &place, b"one"),
        entry("app/zsh/rc", "/home/test/zsh", b"one"),
    ]);
    let scope = runtime.uninstall_scope(&receipts, &some("demo")).unwrap();
    assert_eq!(scope.selected.len(), 1);
    assert_eq!(scope.selected[0].source, "app/old/config");
    assert_eq!(scope.names, ["demo", "old"]);
    assert_eq!(names(&scope.categories), ["demo"]);
    assert!(!scope.is_idle(&some("demo")));
    assert!(runtime.uninstall_scope(&receipts, &some("nope")).unwrap().is_idle(&some("nope")));
    let everything = runtime.uninstall_scope(&receipts, &None).unwrap();
    assert_eq!((everything.selected.len(), everything.categories.len()), (2, 1));
}

#[test]
fn an_upgrade_is_about_what_is_installed() {
    let runtime = preset_runtime();
    let receipts = manifest(vec![entry("app/zsh/rc", "/home/test/zsh", b"one")]);
    assert_eq!(upgrade_entries(&receipts, &None).unwrap().len(), 1);
    assert_eq!(upgrade_entries(&receipts, &Some("zsh".to_string())).unwrap().len(), 1);
    let absent = upgrade_entries(&receipts, &Some("demo".to_string())).unwrap_err();
    assert!(matches!(absent, ScopeFault::NotInstalled));
    assert_eq!(absent.message("demo"), "app preset is not installed: demo");
    assert_eq!(runtime.upgrade_categories("zsh").unwrap().unwrap()[0].name, "zsh");
    assert!(runtime.upgrade_categories("gone").unwrap().is_none());
}

#[test]
fn artifacts_with_a_teardown_are_taken_down() {
    let artifact = |teardown: Option<&str>| AppArtifact {
        script: "build.sh".to_string(),
        teardown: teardown.map(str::to_string),
        runtime: ArtifactRuntime::Native,
        env: Vec::new(),
    };
    let mut first = category("first", Vec::new());
    first.artifact = Some(artifact(None));
    let mut second = category("second", Vec::new());
    second.artifact = Some(artifact(Some("down.sh")));
    let requests = teardown_requests(&vec![first, category("third", Vec::new()), second], true);
    assert_eq!(requests.len(), 1);
    assert_eq!(requests[0].category, "second");
    assert_eq!(requests[0].artifact.teardown.as_deref(), Some("down.sh"));
    assert_eq!(requests[0].action, AppArtifactAction::Remove);
    assert!(requests[0].implicit && requests[0].dry_run);
}

#[test]
fn assessed_files_are_found_by_their_source() {
    let mut files = AssessedFiles::new(vec![
        assessed(file("theme"), Some(b"one")),
        assessed(file("config"), Some(b"two")),
        assessed(file("theme"), Some(b"three")),
    ]);
    let order: Vec<&str> =
        files.files.iter().map(|assessed| assessed.file.source_rel.as_str()).collect();
    assert_eq!(order, ["config", "theme"]);
    assert!(files.remove("app/demo/nope").is_none());
    assert_eq!(files.remove("app/demo/theme").unwrap().content.as_deref(), Some(&b"three"[..]));
    assert!(files.remove("app/demo/theme").is_none());
    assert_eq!(files.files.len(), 1);
}

#[test]
fn an_inspection_shows_the_receipt_of_the_destination_first() {
    let receipts = manifest(vec![
        entry("app/demo/config", "/home/test/old", b"one"),
        entry("app/other/config", "/home/test/config", b"two"),
    ]);
    let assessment = assessed(file("config"), Some(b"two"));
    assert_eq!(inspected_entry(&receipts, &assessment).unwrap().source, "app/other/config");
    let demo = category("demo", Vec::new());
    let current = Some(b"two".to_vec());
    let found = finish_inspection(&receipts, assessment, demo, current, true).unwrap();
    assert_eq!(found.status, InspectionFileStatus::UpToDate);
    assert_eq!(found.manifest_entry.unwrap().source, "app/other/config");
    assert_eq!(found.destination.as_deref(), Some("/home/test/config"));
    let only = manifest(vec![entry("app/demo/config", "/home/test/old", b"one")]);
    let assessment = assessed(file("config"), Some(b"two"));
    assert_eq!(inspected_entry(&only, &assessment).unwrap().destination, "/home/test/old");
}

type Files = BTreeMap<String, Vec<u8>>;

/// Brings Apps up to date on files in memory; a place in `stuck` cannot be cleared.
fn drive_upgrade(
    runtime: &CoreRuntime,
    files: &mut Files,
    receipts: &mut AppManifest,
    request: AppUpgradeRequest,
    stuck: &[&str],
) -> (AppUpgradeLifecycleReport, Vec<UpgradeDemand>) {
    let mut asked = Vec::new();
    let mut drive = UpgradeDrive::start(runtime, receipts.clone(), request).unwrap();
    loop {
        let demand = drive.next();
        if demand != UpgradeDemand::Advance {
            asked.push(demand);
        }
        match demand {
            UpgradeDemand::Advance => drive.advance(runtime).unwrap(),
            UpgradeDemand::Reconcile { .. } => {
                assert!(drive.cache_request().overwrite);
                drive.reconciled();
            }
            UpgradeDemand::Generate { .. } => {
                assert!(drive.generator_request().is_none());
                let due = drive.due();
                let bytes = runtime.app_source_bytes(&due.category, &due.file).unwrap().to_vec();
                drive.assessed(Ok(bytes));
            }
            UpgradeDemand::Authorize { .. } => drive.authorized(true),
            UpgradeDemand::Refuse => unreachable!(),
            UpgradeDemand::Confirm { .. } => drive.confirmed(false),
            UpgradeDemand::Prune { .. } => {
                files.remove(&drive.entry().destination);
                drive.pruned(UninstallOutcome::Removed);
            }
            UpgradeDemand::Look { .. } => {
                let there = files.contains_key(&drive.file().destination);
                let current = files.get(&drive.entry().destination).cloned();
                drive.looked(there, current).unwrap();
            }
            UpgradeDemand::Install { .. } => {
                let at = drive.file();
                let content = at.content.clone().unwrap();
                let hash = hash_content(&content);
                files.insert(at.destination.clone(), content);
                drive.installed(Ok(InstallOutcome::Installed { hash }));
            }
            UpgradeDemand::Clear { .. } => {
                let old = drive.entry().destination.clone();
                if stuck.contains(&old.as_str()) {
                    drive.cleared(Err("denied".to_string()));
                } else {
                    files.remove(&old);
                    drive.cleared(Ok(UninstallOutcome::Removed));
                }
            }
            UpgradeDemand::TakeBack { .. } => {
                files.remove(&drive.take_back_entry().destination);
                drive.taken_back();
            }
            UpgradeDemand::LookNew { .. } => {
                drive.looked_new(files.contains_key(&drive.new_file().destination));
            }
            UpgradeDemand::InstallNew { .. } => {
                let at = drive.new_file();
                let content = at.content.clone().unwrap();
                let hash = hash_content(&content);
                files.insert(at.destination.clone(), content);
                drive.installed_new(Ok(InstallOutcome::Installed { hash }));
            }
            UpgradeDemand::SaveReceipts => {
                assert_eq!(drive.manifest().schema_version, APP_MANIFEST_SCHEMA_VERSION);
                *receipts = drive.manifest().clone();
                drive.receipts_saved();
            }
            UpgradeDemand::Hooks => {
                let hooks = drive.hook_request();
                assert_eq!(hooks.phase, AppHookPhase::PostUpgrade);
                assert_eq!(&hooks.changed, drive.changed());
                assert_eq!(hooks.categories.len(), drive.categories().len());
                assert!(hooks.show_success);
                drive.hooks_ran(Vec::new());
            }
            UpgradeDemand::Finish => return (drive.finish(), asked),
        }
    }
}

fn upgrade_runtime() -> CoreRuntime {
    let presets = PresetSnapshot::builder(PresetSourceKind::Embedded)
        .file("app/demo/config", b"# shine-dest: ~/config\nnew".to_vec())
        .file("app/demo/theme", b"# shine-dest: ~/theme\ndark".to_vec())
        .build();
    CoreRuntime::new(preset_runtime().context, presets)
}

fn upgrade_request(prune_stale: bool, prompt_stale: bool) -> AppUpgradeRequest {
    AppUpgradeRequest { category: None, prune_stale, prompt_stale, show_hook_success: true }
}

#[test]
fn an_upgrade_assesses_all_files_and_then_changes_them() {
    let runtime = upgrade_runtime();
    let mut files = Files::new();
    files.insert("/home/test/config".to_string(), b"one".to_vec());
    let mut receipts = manifest(vec![
        entry("app/demo/config", "/home/test/config", b"one"),
        entry("app/demo/gone", "/home/test/gone", b"one"),
        entry("nowhere", "/home/test/nowhere", b"one"),
    ]);
    let (report, asked) =
        drive_upgrade(&runtime, &mut files, &mut receipts, upgrade_request(false, true), &[]);
    assert_eq!(
        asked,
        vec![
            UpgradeDemand::Reconcile { index: 0 },
            UpgradeDemand::Generate { index: 0 },
            UpgradeDemand::Generate { index: 1 },
            UpgradeDemand::Look { index: 0 },
            UpgradeDemand::Install { index: 0 },
            UpgradeDemand::Confirm { index: 1 },
            UpgradeDemand::LookNew { index: 0 },
            UpgradeDemand::InstallNew { index: 0 },
            UpgradeDemand::SaveReceipts,
            UpgradeDemand::Hooks,
            UpgradeDemand::Finish,
        ]
    );
    assert_eq!(report.lifecycle.operation, LifecycleOperation::Upgrade);
    assert_eq!(report.updated_categories, vec!["demo".to_string()]);
    assert_eq!(files["/home/test/config"], b"# shine-dest: ~/config\nnew");
    assert_eq!(files["/home/test/theme"], b"# shine-dest: ~/theme\ndark");
    assert_eq!(receipts.entries.len(), 4);
    let (_, asked) =
        drive_upgrade(&runtime, &mut files, &mut receipts, upgrade_request(true, false), &[]);
    assert!(asked.contains(&UpgradeDemand::Prune { index: 1 }));
    assert!(receipts.find_by_source("app/demo/gone").is_none());
}

#[test]
fn a_moved_file_is_taken_back_where_its_old_place_stays() {
    let runtime = upgrade_runtime();
    let receipt = entry("app/demo/config", "/home/test/old", b"one");
    let mut files = Files::new();
    files.insert("/home/test/old".to_string(), b"one".to_vec());
    files.insert("/home/test/theme".to_string(), b"mine".to_vec());
    let mut receipts = manifest(vec![receipt.copied()]);
    let before = files.clone();
    let request = upgrade_request(false, false);
    let (report, asked) = drive_upgrade(
        &runtime,
        &mut files,
        &mut receipts,
        request.clone(),
        &["/home/test/old"],
    );
    assert!(asked.contains(&UpgradeDemand::TakeBack { index: 0 }));
    assert_eq!(files, before);
    assert_eq!(report.failed, 1);
    assert_eq!(receipts.entries[0].destination, "/home/test/old");
    let (report, asked) = drive_upgrade(&runtime, &mut files, &mut receipts, request, &[]);
    assert!(asked.contains(&UpgradeDemand::Clear { index: 0 }));
    assert!(!files.contains_key("/home/test/old"));
    assert_eq!(receipts.entries[0].destination, "/home/test/config");
    assert_eq!(files["/home/test/theme"], b"mine");
    assert_eq!(report.updated_categories, vec!["demo".to_string()]);
}

#[test]
fn an_upgrade_does_not_start_without_readable_receipts() {
    let runtime = upgrade_runtime();
    let mut receipts = manifest(Vec::new());
    let mut request = upgrade_request(false, false);
    request.category = Some("demo".to_string());
    assert!(matches!(
        UpgradeDrive::start(&runtime, receipts.clone(), request.clone()).unwrap_err(),
        StartFault::Scope { fault: ScopeFault::NotInstalled }
    ));
    receipts.schema_version = APP_MANIFEST_SCHEMA_VERSION + 1;
    assert!(matches!(
        UpgradeDrive::start(&runtime, receipts, request).unwrap_err(),
        StartFault::UnsupportedManifest { .. }
    ));
}

#[test]
fn an_upgrade_is_refused_without_rights() {
    let mut runtime = refresh_runtime(true);
    let receipts = manifest(vec![entry("app/demo/token", "/home/test/demo/token", b"one")]);
    let mut drive =
        UpgradeDrive::start(&runtime, receipts.clone(), upgrade_request(false, false)).unwrap();
    loop {
        match drive.next() {
            UpgradeDemand::Advance => drive.advance(&runtime).unwrap(),
            UpgradeDemand::Reconcile { .. } => drive.reconciled(),
            UpgradeDemand::Generate { .. } => {
                let request = drive.generator_request().unwrap();
                assert_eq!((request.category.as_str(), request.source.as_str()), ("demo", "token"));
                assert!(!request.explicit);
                assert!(drive.due().generator_request(false, true).unwrap().explicit);
                assert!(drive.due().generator_request(true, true).is_none());
                drive.assessed(Err("no network".to_string()));
            }
            UpgradeDemand::Authorize { count } => {
                assert_eq!(count, 1);
                drive.authorized(false);
            }
            demand => {
                assert_eq!(demand, UpgradeDemand::Refuse);
                break;
            }
        }
    }
    runtime.context.running_as_admin = true;
    let mut drive = UpgradeDrive::start(&runtime, receipts, upgrade_request(false, false)).unwrap();
    loop {
        match drive.next() {
            UpgradeDemand::Advance => drive.advance(&runtime).unwrap(),
            UpgradeDemand::Reconcile { .. } => drive.reconciled(),
            UpgradeDemand::Generate { .. } => drive.assessed(Err("no network".to_string())),
            UpgradeDemand::SaveReceipts => drive.receipts_saved(),
            UpgradeDemand::Hooks => drive.hooks_ran(Vec::new()),
            demand => {
                assert_eq!(demand, UpgradeDemand::Finish);
                break;
            }
        }
    }
    assert_eq!(drive.finish().failed, 1);
}

fn refresh_runtime(requires_admin: bool) -> CoreRuntime {
    let made = FileToml {
        source: "token".to_string(),
        target: None,
        dest: None,
        description: None,
        display_name: None,
        platforms: None,
        transform: None,
        transforms: None,
        install_mode: None,
        managed_keys: None,
        requires_admin,
        restart_hint: None,
        generator: Some(GeneratorToml {
            script: "make.sh".to_string(),
            runtime: None,
            env: vec!["TOKEN".to_string()],
            when_env: "TOKEN".to_string(),
            auto: true,
        }),
    };
    let demo = CategoryToml {
        description: None,
        dest: DestToml::Single("~/demo".to_string()),
        list_mode: None,
        post_upgrade: None,
        post_install: None,
        artifact: None,
        files: Some(vec![made]),
        permissions: None,
    };
    let presets = PresetSnapshot::builder(PresetSourceKind::Embedded)
        .file("app/demo/shine.toml", Vec::new())
        .metadata("app/demo/shine.toml", demo)
        .file("app/demo/token", b"default".to_vec())
        .file("app/demo/make.sh", b"echo".to_vec())
        .build();
    let mut context = preset_runtime().context;
    context.env.push(EnvValue { name: "TOKEN".to_string(), value: "secret".to_string() });
    CoreRuntime::new(context, presets)
}

fn refresh_request(force: bool) -> AppRefreshRequest {
    AppRefreshRequest { category: "demo".to_string(), file: None, force }
}

/// Generates a file anew that now holds `current`.
fn drive_refresh(
    runtime: &CoreRuntime,
    force: bool,
    current: &[u8],
    generated: Result<Option<Vec<u8>>, String>,
) -> (AppLifecycleReport, Vec<RefreshDemand>) {
    let receipts = manifest(vec![entry("app/demo/token", "/home/test/demo/token", b"one")]);
    let mut drive = RefreshDrive::start(runtime, receipts, &refresh_request(force)).unwrap();
    let mut asked = Vec::new();
    loop {
        let demand = drive.next();
        asked.push(demand);
        match demand {
            RefreshDemand::Authorize { count } => drive.authorized(count == 1),
            RefreshDemand::Refuse => unreachable!(),
            RefreshDemand::Consider { .. } => drive.consider(&runtime.context),
            RefreshDemand::Generate { .. } => {
                assert!(drive.generator_request().explicit);
                drive.generated(generated.clone());
            }
            RefreshDemand::Transform { .. } => {
                let content = drive.content().clone();
                drive.transformed(Ok(content));
            }
            RefreshDemand::Read { .. } => drive.read(Ok(Some(current.to_vec()))),
            RefreshDemand::Install { .. } => {
                let hash = hash_content(drive.content());
                drive.installed(Ok(InstallOutcome::Installed { hash }));
            }
            RefreshDemand::SaveReceipts => {
                assert_eq!(drive.manifest().entries[0].content_hash, hash_content(b"two"));
                drive.receipts_saved();
            }
            RefreshDemand::Hooks => {
                let hooks = drive.hook_request();
                assert_eq!(hooks.phase, AppHookPhase::PostUpgrade);
                assert_eq!(hooks.changed, vec!["demo".to_string()]);
                assert_eq!(hooks.categories[0].name, "demo");
                drive.hooks_ran(Vec::new());
            }
            RefreshDemand::Finish => return (drive.finish(), asked),
        }
    }
}

#[test]
fn a_refresh_writes_what_its_generator_made() {
    let runtime = refresh_runtime(true);
    let (report, asked) = drive_refresh(&runtime, false, b"one", Ok(Some(b"two".to_vec())));
    assert_eq!(
        asked,
        vec![
            RefreshDemand::Authorize { count: 1 },
            RefreshDemand::Consider { index: 0 },
            RefreshDemand::Generate { index: 0 },
            RefreshDemand::Transform { index: 0 },
            RefreshDemand::Read { index: 0 },
            RefreshDemand::Install { index: 0 },
            RefreshDemand::SaveReceipts,
            RefreshDemand::Hooks,
            RefreshDemand::Finish,
        ]
    );
    assert_eq!(report.files[0].action, AppFileAction::Installed);
    let (report, asked) = drive_refresh(&runtime, false, b"mine", Ok(Some(b"two".to_vec())));
    assert!(!asked.contains(&RefreshDemand::SaveReceipts));
    assert_eq!(report.lifecycle.summary().changed, 0);
    let (_, asked) = drive_refresh(&runtime, true, b"mine", Ok(Some(b"two".to_vec())));
    assert!(asked.contains(&RefreshDemand::SaveReceipts));
    for broken in [Ok(None), Err("no network".to_string())] {
        let (report, asked) = drive_refresh(&runtime, true, b"one", broken);
        assert!(!asked.contains(&RefreshDemand::Transform { index: 0 }));
        assert_eq!(
            report.lifecycle.outcomes[0].diagnostic_codes,
            vec!["app_refresh_failed".to_string()]
        );
    }
}

#[test]
fn a_refresh_needs_its_variable_its_rights_and_its_receipts() {
    let mut runtime = refresh_runtime(true);
    let receipts = manifest(vec![entry("app/demo/token", "/home/test/demo/token", b"one")]);
    let mut drive =
        RefreshDrive::start(&runtime, receipts.clone(), &refresh_request(false)).unwrap();
    drive.authorized(false);
    assert_eq!(drive.next(), RefreshDemand::Refuse);
    assert!(matches!(
        RefreshDrive::start(&runtime, manifest(Vec::new()), &refresh_request(false)).unwrap_err(),
        RefreshStartFault::Nothing { message }
            if message == "app 'demo' has no installed generated files; run `shine install app/demo` first"
    ));
    let mut later = receipts.clone();
    later.schema_version = APP_MANIFEST_SCHEMA_VERSION + 1;
    assert!(matches!(
        RefreshDrive::start(&runtime, later, &refresh_request(false)).unwrap_err(),
        RefreshStartFault::Start { fault: StartFault::UnsupportedManifest { .. } }
    ));
    runtime.context.env.clear();
    runtime.context.running_as_admin = true;
    let mut drive = RefreshDrive::start(&runtime, receipts, &refresh_request(false)).unwrap();
    drive.consider(&runtime.context);
    assert_eq!(drive.next(), RefreshDemand::Finish);
    let report = drive.finish();
    assert_eq!(
        report.files[0].error.as_deref(),
        Some("app 'demo' generator requires config env 'TOKEN'")
    );
}

#[test]
fn an_inspection_shows_no_content_without_a_receipt() {
    let place = assessed(file("config"), Some(b"one"));
    let found = finish_inspection(
        &manifest(Vec::new()),
        place,
        category("demo", vec![file("config")]),
        Some(b"mine".to_vec()),
        true,
    )
    .unwrap();
    assert!(found.manifest_entry.is_none());
    assert_eq!(found.current_content, None);
}

#[test]
fn an_upgrade_names_installed_categories_in_order() {
    let place = |name: &str| format!("# shine-dest: ~/{name}\nnew").into_bytes();
    let presets = PresetSnapshot::builder(PresetSourceKind::Embedded)
        .file("app/zsh/rc", place("rc"))
        .file("app/demo/config", place("config"))
        .file("app/other/file", place("file"))
        .build();
    let runtime = CoreRuntime::new(preset_runtime().context, presets);
    let mut files = Files::new();
    let mut receipts = manifest(vec![
        entry("app/zsh/rc", "/home/test/rc", b"one"),
        entry("app/demo/config", "/home/test/config", b"one"),
    ]);
    let all = receipts.clone();
    let (report, _) =
        drive_upgrade(&runtime, &mut files, &mut receipts, upgrade_request(false, false), &[]);
    assert_eq!(report.updated_categories, vec!["demo".to_string(), "zsh".to_string()]);
    assert!(report.files.iter().all(|file| file.category == "demo" || file.category == "zsh"));
    assert!(!files.contains_key("/home/test/file"));
    let mut files = Files::new();
    let mut receipts = all;
    let mut request = upgrade_request(false, false);
    request.category = Some("zsh".to_string());
    let (report, _) = drive_upgrade(&runtime, &mut files, &mut receipts, request, &[]);
    assert_eq!(report.updated_categories, vec!["zsh".to_string()]);
    assert!(report.files.iter().all(|file| file.category == "zsh"));
    assert_eq!(files.len(), 1);
}
