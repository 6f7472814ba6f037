//! Installing, removing and running the code of Apps.

use shine_core::app_artifact::{finish_app_artifact, ArtifactStart};
use shine_core::app_assess::{
    transform_failed, wants_generator, AssessFault, Generated, RawContent,
};
use shine_core::app_cache::{
    finish_app_cache, CacheDemand, CacheDrive, CacheRun, CacheStep, CacheTarget,
};
use shine_core::app_code::{
    display_exit_code, finish_app_generator, generator_note_event, process_detail, GeneratorStart,
    HookProgress, HookStart,
};
use shine_core::app_install::{
    decide_copy_install, decide_copy_uninstall, CopyInstall, CopyUninstall, InstallOutcome,
    UninstallOutcome,
};
use shine_core::app_metadata_types::{CategoryToml, DestToml, FileToml};
use shine_core::app_types::{
    AppArtifact, AppArtifactAction, AppArtifactRequest, AppCacheRequest, AppCategory,
    AppGenerator, AppGeneratorRequest, AppHook, AppHookPhase, AppHookReport, AppHookRequest,
    AppLifecycleReport, AppLifecycleRequest, AppListMode, AppUninstallLifecycleRequest,
    ArtifactRuntime, EnvVarSpec,
};
use shine_core::context::{env_value, EnvValue, RuntimeContext, RuntimePlatform};
use shine_core::copy_machine::{CopyDemand, CopyInstallRun, CopyUninstallRun};
use shine_core::hook_drive::{HookDemand, HookDrive};
use shine_core::host::{HostOperation, ProcessIo, ProcessOutput, RuntimeEvent};
use shine_core::install_drive::{InstallDemand, InstallDrive, StartFault};
use shine_core::lifecycle::{
    LifecycleEffect, LifecycleOperation, LifecycleOutcomeV1, LifecycleStatus,
};
use shine_core::manifest::{
    AppEntry, AppInstallStrategy, AppManifest, APP_MANIFEST_SCHEMA_VERSION,
};
use shine_core::presets::{PresetSnapshot, PresetSourceKind};
use shine_core::recovery_run::HostStep;
use shine_core::runtime::CoreRuntime;
use shine_core::uninstall_drive::{UninstallDemand, UninstallDrive};
use std::collections::BTreeMap;

fn metadata() -> CategoryToml {
    CategoryToml {
        description: None,
        dest: DestToml::Single("~/.config/demo".to_string()),
        list_mode: None,
        post_upgrade: None,
        post_install: None,
        artifact: None,
        files: Some(vec![FileToml {
            source: "config".to_string(),
            target: None,
            dest: None,
            description: None,
            display_name: None,
            platforms: None,
            transform: None,
            transforms: None,
            install_mode: None,
            managed_keys: None,
            requires_admin: false,
            restart_hint: None,
            generator: None,
        }]),
        permissions: None,
    }
}

fn runtime() -> CoreRuntime {
    let presets = PresetSnapshot::builder(PresetSourceKind::External)
        .file(
            "app/demo/shine.toml",
            b"dest = \"~/.config/demo\"\n[[files]]\nsource = \"config\"\n".to_vec(),
        )
        .metadata("app/demo/shine.toml", metadata())
        .file("app/demo/config", b"one".to_vec())
        .build();
    let mut context = RuntimeContext::isolated(
        "/tmp/shine-core-app-lifecycle",
        "/tmp/shine-core-app-lifecycle/.shine",
        "/tmp/shine-core-app-lifecycle/.shine/presets",
        "/tmp/shine-core-app-lifecycle/.shine/bin",
        RuntimePlatform::Linux,
    );
    context.is_external_presets = true;
    CoreRuntime::new(context, presets)
}

fn variable(name: &str, value: &str) -> EnvValue {
    EnvValue { name: name.to_string(), value: value.to_string() }
}

fn spec(source: &str, target: &str) -> EnvVarSpec {
    EnvVarSpec { source: source.to_string(), target: target.to_string() }
}

#[test]
fn artifact_env_allowlist_cannot_override_fixed_contract_values() {
    let mut runtime = runtime();
    runtime.context.env.push(variable("USER_VALUE", "override"));
    let env = runtime.app_artifact_env(
        "demo",
        "/preset/app/demo",
        &vec![spec("USER_VALUE", "SHINE_APP_ID")],
    );
    assert_eq!(env_value(&env, "SHINE_APP_ID").as_deref(), Some("demo"));
}

#[test]
fn artifact_code_sees_its_directories_and_what_was_listed() {
    let mut runtime = runtime();
    runtime.context.overlay_dir = Some("/overlay".to_string());
    runtime.context.env.push(variable("TOKEN", "first"));
    runtime.context.env.push(variable("TOKEN", "last"));
    let env = runtime.app_artifact_env(
        "demo",
        "/preset/app/demo",
        &vec![spec("TOKEN", "SEEN"), spec("UNSET", "NEVER")],
    );
    let value = |name: &str| env_value(&env, name);
    assert_eq!(value("SEEN").as_deref(), Some("last"));
    assert_eq!(value("NEVER"), None);
    assert_eq!(value("SHINE_APP_DIR").as_deref(), Some("/preset/app/demo"));
    assert_eq!(
        value("SHINE_APP_SOURCE_DIR").as_deref(),
        Some("/tmp/shine-core-app-lifecycle/.shine/presets/app/demo")
    );
    assert_eq!(
        value("SHINE_APP_HTTP_DIR").as_deref(),
        Some("/tmp/shine-core-app-lifecycle/.shine/http/app/demo")
    );
    assert_eq!(
        value("SHINE_CACHE_DIR").as_deref(),
        Some("/tmp/shine-core-app-lifecycle/.cache/shine/app/demo")
    );
    assert_eq!(
        value("SHINE_STATE_DIR").as_deref(),
        Some("/tmp/shine-core-app-lifecycle/.shine/state/app/demo")
    );
    assert_eq!(
        value("SHINE_CONFIG_DIR").as_deref(),
        Some("/tmp/shine-core-app-lifecycle/.shine")
    );
    assert_eq!(value("SHINE_APP_OVERLAY_DIR").as_deref(), Some("/overlay/app/demo"));
}

type Files = BTreeMap<String, Vec<u8>>;

/// Takes a step; a write to one of the failing paths does not succeed.
fn take(files: &mut Files, step: &HostStep, failing: &[&str]) -> bool {
    match step {
        HostStep::WriteFile { path, content, .. } => {
            if failing.contains(&path.as_str()) {
                return false;
            }
            files.insert(path.clone(), content.clone());
        }
        HostStep::MoveFile { from, to, .. } => {
            let content = files.remove(from).unwrap();
            files.insert(to.clone(), content);
        }
        HostStep::RemoveFile { path, .. } => {
            files.remove(path);
        }
        _ => unreachable!(),
    }
    true
}

fn operation_of(step: &HostStep) -> HostOperation {
    match step.clone() {
        HostStep::WriteFile { path, .. } => HostOperation::Write(path),
        HostStep::MoveFile { from, to, .. } => HostOperation::MovePrivileged { from, to },
        HostStep::RemoveFile { path, .. } => HostOperation::Remove(path),
        _ => unreachable!(),
    }
}

fn run_install(
    files: &mut Files,
    mut run: CopyInstallRun,
    failing: &[&str],
) -> (Option<InstallOutcome>, Vec<HostOperation>) {
    let mut operations = Vec::new();
    loop {
        match run.next() {
            CopyDemand::Lock => {
                operations.push(HostOperation::AcquirePrivilegedOperation);
                run.lock_acquired();
            }
            CopyDemand::LookAt => run.looked(files.contains_key(&run.destination)),
            CopyDemand::Read => run.read(&files[&run.destination].clone()),
            CopyDemand::Take => {
                operations.push(operation_of(run.step()));
                if take(files, run.step(), failing) {
                    run.step_taken();
                } else {
                    run.step_failed();
                }
            }
            CopyDemand::Undo => {
                take(files, &run.undo_step(), &[]);
                run.step_taken();
            }
            CopyDemand::Finish => return (run.outcome(), operations),
        }
    }
}

fn run_uninstall(
    files: &mut Files,
    mut run: CopyUninstallRun,
) -> (UninstallOutcome, Vec<HostOperation>) {
    let mut operations = Vec::new();
    loop {
        match run.next() {
            CopyDemand::Lock => {
                operations.push(HostOperation::AcquirePrivilegedOperation);
                run.lock_acquired();
            }
            CopyDemand::LookAt => {
                run.looked(files.contains_key(run.entry.backup.as_deref().unwrap()));
            }
            CopyDemand::Read => run.read(files.get(&run.entry.destination).map(Vec::as_slice)),
            CopyDemand::Take => {
                operations.push(operation_of(&run.step()));
                take(files, &run.step(), &[]);
                run.step_taken();
            }
            CopyDemand::Undo => unreachable!(),
            CopyDemand::Finish => return (run.outcome(), operations),
        }
    }
}

/// What a drive asks of its host while Apps are installed, in order.
type Asked = Vec<String>;

fn drive_install(
    runtime: &CoreRuntime,
    files: &mut Files,
    manifest: &mut AppManifest,
    request: &AppLifecycleRequest,
    granted: bool,
) -> (AppLifecycleReport, Asked) {
    let mut asked = Vec::new();
    let mut drive = InstallDrive::start(runtime, manifest.clone(), request).unwrap();
    loop {
        let demand = drive.next();
        asked.push(format!("{demand:?}"));
        match demand {
            InstallDemand::Reconcile { .. } => {
                let outcome = drive_cache(runtime, files, drive.cache_request());
                drive.reconciled(outcome);
            }
            InstallDemand::Generate { .. } => {
                let due = drive.due();
                assert!(!wants_generator(&due.file, drive.dry_run()));
                assert!(drive.generator_request().is_none());
                let raw = runtime.app_raw_content(&due.category, &due.file, Generated::NotRun);
                match raw.unwrap() {
                    RawContent::Content(bytes) => drive.assessed(Ok(bytes)),
                    RawContent::Kept(error) => drive.assessed(Err(error)),
                }
            }
            InstallDemand::Authorize { .. } => drive.authorized(granted),
            InstallDemand::Consider { .. } => drive.consider(),
            InstallDemand::Install { is_managed, .. } => {
                let at = drive.file();
                let install = CopyInstallRun::start(
                    &at.destination,
                    at.content.as_deref().unwrap(),
                    false,
                    is_managed,
                    drive.dry_run(),
                    drive.force(),
                );
                let (outcome, _) = run_install(files, install, &[]);
                drive.installed(outcome.ok_or("not installed".to_string()));
            }
            InstallDemand::SaveReceipts => {
                assert_eq!(drive.manifest().schema_version, APP_MANIFEST_SCHEMA_VERSION);
                let mut ordered = drive.changed().clone();
                ordered.sort();
                ordered.dedup();
                assert_eq!(drive.changed(), &ordered);
                *manifest = drive.manifest().clone();
                drive.receipts_saved();
            }
            InstallDemand::Hooks => {
                assert_eq!(drive.hook_request().phase, AppHookPhase::PostInstall);
                assert_eq!(&drive.hook_request().changed, drive.changed());
                drive.hooks_ran(Vec::new());
            }
            InstallDemand::Finish => return (drive.finish(), asked),
        }
    }
}

fn install_request(target: &str, dry_run: bool) -> AppLifecycleRequest {
    AppLifecycleRequest { target: Some(target.to_string()), dry_run, force: false }
}

fn install_apps(
    runtime: &CoreRuntime,
    files: &mut Files,
    manifest: &mut AppManifest,
    target: &str,
) -> AppLifecycleReport {
    drive_install(runtime, files, manifest, &install_request(target, false), true).0
}

fn uninstall_entry(files: &mut Files, entry: &AppEntry, force: bool) -> UninstallOutcome {
    run_uninstall(files, CopyUninstallRun::start(entry.clone(), false, force)).0
}

fn uninstall_request(target: &str, dry_run: bool) -> AppUninstallLifecycleRequest {
    AppUninstallLifecycleRequest {
        target: Some(target.to_string()),
        dry_run,
        force: false,
        purge: false,
    }
}

fn drive_uninstall(
    runtime: &CoreRuntime,
    files: &mut Files,
    manifest: &mut AppManifest,
    request: AppUninstallLifecycleRequest,
    granted: bool,
) -> (AppLifecycleReport, Asked) {
    let mut asked = Vec::new();
    let mut drive = UninstallDrive::start(runtime, manifest.clone(), request).unwrap();
    loop {
        let demand = drive.next();
        asked.push(format!("{demand:?}"));
        match demand {
            UninstallDemand::Authorize { .. } => drive.authorized(granted),
            UninstallDemand::TearDown { .. } => {
                assert!(drive.torn_down(Err("broken".to_string())).is_some());
            }
            UninstallDemand::Consider { .. } => drive.consider(),
            UninstallDemand::Uninstall { .. } => {
                let run = CopyUninstallRun::start(
                    drive.entry().clone(),
                    drive.dry_run(),
                    drive.force(),
                );
                let (outcome, _) = run_uninstall(files, run);
                drive.uninstalled(Ok(outcome));
            }
            UninstallDemand::SaveReceipts => {
                assert_eq!(drive.manifest().schema_version, APP_MANIFEST_SCHEMA_VERSION);
                *manifest = drive.manifest().clone();
                drive.receipts_saved();
            }
            UninstallDemand::Reconcile { .. } => {
                let outcome = drive_cache(runtime, files, drive.cache_request());
                drive.reconciled(outcome);
            }
            UninstallDemand::Finish => return (drive.finish(), asked),
        }
    }
}

fn uninstall_apps(
    runtime: &CoreRuntime,
    files: &mut Files,
    manifest: &mut AppManifest,
    target: &str,
) -> AppLifecycleReport {
    drive_uninstall(runtime, files, manifest, uninstall_request(target, false), true).0
}

/// Reconciles the cache; a directory is there where a file is under it.
fn drive_cache(
    runtime: &CoreRuntime,
    files: &mut Files,
    request: AppCacheRequest,
) -> LifecycleOutcomeV1 {
    let mut drive = CacheDrive::start(runtime, request);
    loop {
        match drive.next() {
            CacheDemand::Look { .. } => {
                let target = drive.target();
                let found = match target {
                    CacheTarget::Root { path } => files
                        .keys()
                        .any(|file| file.starts_with(&format!("{path}/")))
                        .then_some(Vec::new()),
                    target => files.get(target.path()).cloned(),
                };
                drive.looked(found);
            }
            CacheDemand::Apply { step, .. } => {
                let path = drive.target().path().to_string();
                match (step, drive.target()) {
                    (CacheStep::WriteFile, CacheTarget::File { content, .. }) => {
                        files.insert(path, content.clone());
                    }
                    (CacheStep::RemoveDirectory, _) => {
                        files.retain(|file, _| !file.starts_with(&format!("{path}/")));
                    }
                    _ => {
                        files.remove(&path);
                    }
                }
                drive.applied();
            }
            CacheDemand::Finish => return drive.finish(),
        }
    }
}

#[test]
fn app_executor_roundtrip_and_target_isolation_use_in_memory_host() {
    let runtime = runtime();
    let home_dir = runtime.context.home_dir.clone();
    let mut files = Files::new();
    let mut manifest = AppManifest::default();
    let installed = install_apps(&runtime, &mut files, &mut manifest, "demo");
    assert_eq!(installed.lifecycle.summary().changed, 1);
    let unchanged = install_apps(&runtime, &mut files, &mut manifest, "demo");
    assert_eq!(unchanged.lifecycle.summary().unchanged, 1);

    files.insert(format!("{home_dir}/other"), b"other".to_vec());
    let removed = uninstall_apps(&runtime, &mut files, &mut manifest, "demo");
    assert_eq!(removed.lifecycle.summary().changed, 1);
    assert!(!files.contains_key(&format!("{home_dir}/.config/demo/config")));
    assert_eq!(files[&format!("{home_dir}/other")], b"other");
}

#[test]
fn an_install_keeps_what_the_user_had_and_an_uninstall_gives_it_back() {
    let runtime = runtime();
    let destination = format!("{}/.config/demo/config", runtime.context.home_dir);
    let mut files = Files::new();
    files.insert(destination.clone(), b"mine".to_vec());
    let mut manifest = AppManifest::default();
    install_apps(&runtime, &mut files, &mut manifest, "demo");
    assert_eq!(files[&destination], b"one");
    assert_eq!(manifest.entries[0].backup.as_deref().map(|path| files[path].clone()), Some(b"mine".to_vec()));
    uninstall_apps(&runtime, &mut files, &mut manifest, "demo");
    assert_eq!(files[&destination], b"mine");
    assert!(manifest.entries.is_empty());
}

#[test]
fn an_uninstall_leaves_what_the_user_changed() {
    let runtime = runtime();
    let destination = format!("{}/.config/demo/config", runtime.context.home_dir);
    let mut files = Files::new();
    let mut manifest = AppManifest::default();
    install_apps(&runtime, &mut files, &mut manifest, "demo");
    files.insert(destination.clone(), b"changed".to_vec());
    let report = uninstall_apps(&runtime, &mut files, &mut manifest, "demo");
    assert_eq!(report.lifecycle.outcomes[0].status, LifecycleStatus::Preserved);
    assert_eq!(files[&destination], b"changed");
    assert_eq!(manifest.entries.len(), 1);
    let outcome = uninstall_entry(&mut files, &manifest.entries[0].clone(), true);
    assert!(matches!(outcome, UninstallOutcome::ForceRemoved));
    assert!(!files.contains_key(&destination));
}

fn two_app_runtime() -> CoreRuntime {
    let mut category = metadata();
    category.files.as_mut().unwrap()[0].requires_admin = true;
    let presets = PresetSnapshot::builder(PresetSourceKind::Embedded)
        .file("app/demo/shine.toml", b"dest = \"~/.config/demo\"\n".to_vec())
        .metadata("app/demo/shine.toml", category)
        .file("app/demo/config", b"one".to_vec())
        .file("app/demo2/other", b"# shine-dest: ~/other\ntwo".to_vec())
        .build();
    let context = RuntimeContext::isolated(
        "/home/me",
        "/home/me/.shine",
        "/home/me/.shine/presets",
        "/home/me/.shine/bin",
        RuntimePlatform::Linux,
    );
    CoreRuntime::new(context, presets)
}

#[test]
fn an_install_assesses_every_file_before_it_writes_one() {
    let runtime = two_app_runtime();
    let mut files = Files::new();
    let mut manifest = AppManifest::default();
    let request = AppLifecycleRequest { target: None, dry_run: false, force: false };
    let (report, asked) = drive_install(&runtime, &mut files, &mut manifest, &request, true);
    assert_eq!(
        asked,
        vec![
            "Reconcile { index: 0 }",
            "Reconcile { index: 1 }",
            "Generate { index: 0 }",
            "Generate { index: 1 }",
            "Authorize { count: 1 }",
            "Consider { index: 0 }",
            "Install { index: 0, is_managed: false }",
            "Consider { index: 1 }",
            "Install { index: 1, is_managed: false }",
            "SaveReceipts",
            "Hooks",
            "Finish",
        ]
    );
    assert_eq!(report.lifecycle.operation, LifecycleOperation::Install);
    assert_eq!(files["/home/me/.config/demo/config"], b"one");
    assert_eq!(files["/home/me/.shine/presets/app/demo/config"], b"one");
    assert_eq!(manifest.entries.len(), 2);
}

#[test]
fn a_preview_of_an_install_saves_nothing() {
    let runtime = two_app_runtime();
    let mut files = Files::new();
    let mut manifest = AppManifest::default();
    let request = AppLifecycleRequest { target: None, dry_run: true, force: false };
    let (report, asked) = drive_install(&runtime, &mut files, &mut manifest, &request, false);
    assert!(report.lifecycle.dry_run);
    assert!(files.is_empty() && manifest.entries.is_empty());
    assert!(!asked.iter().any(|demand| {
        demand.starts_with("Authorize") || demand == "SaveReceipts" || demand == "Hooks"
    }));
}

#[test]
fn without_rights_a_privileged_file_is_left_out() {
    let runtime = two_app_runtime();
    let mut files = Files::new();
    let mut manifest = AppManifest::default();
    let request = AppLifecycleRequest { target: None, dry_run: false, force: false };
    drive_install(&runtime, &mut files, &mut manifest, &request, false);
    assert!(!files.contains_key("/home/me/.config/demo/config"));
    assert_eq!(files["/home/me/other"], b"# shine-dest: ~/other\ntwo");
    drive_install(&runtime, &mut files, &mut manifest, &request, true);
    assert_eq!(manifest.entries.len(), 2);
    let all =
        AppUninstallLifecycleRequest { target: None, dry_run: false, force: false, purge: false };
    let (report, asked) =
        drive_uninstall(&runtime, &mut files, &mut manifest, all.clone(), false);
    assert_eq!(report.lifecycle.operation, LifecycleOperation::Uninstall);
    assert_eq!(asked[0], "Authorize { count: 1 }");
    assert_eq!(manifest.entries.len(), 1);
    assert!(files.contains_key("/home/me/.config/demo/config"));
    drive_uninstall(&runtime, &mut files, &mut manifest, all, true);
    assert!(files.is_empty() && manifest.entries.is_empty());
}

#[test]
fn a_preview_of_an_uninstall_changes_nothing() {
    let runtime = two_app_runtime();
    let mut files = Files::new();
    let mut manifest = AppManifest::default();
    let request = AppLifecycleRequest { target: None, dry_run: false, force: false };
    drive_install(&runtime, &mut files, &mut manifest, &request, true);
    let before = files.clone();
    let preview =
        AppUninstallLifecycleRequest { target: None, dry_run: true, force: true, purge: true };
    let (report, asked) =
        drive_uninstall(&runtime, &mut files, &mut manifest, preview, false);
    assert!(report.lifecycle.dry_run);
    assert_eq!(files, before);
    assert_eq!(manifest.entries.len(), 2);
    assert!(!asked.contains(&"SaveReceipts".to_string()));
}

#[test]
fn receipts_of_a_later_version_stop_everything() {
    let runtime = two_app_runtime();
    let mut manifest = AppManifest::default();
    manifest.schema_version = APP_MANIFEST_SCHEMA_VERSION + 1;
    let version = manifest.schema_version;
    let install = InstallDrive::start(&runtime, manifest.clone(), &install_request("demo", false));
    assert!(matches!(
        install.unwrap_err(),
        StartFault::UnsupportedManifest { version: found } if found == version
    ));
    let uninstall =
        UninstallDrive::start(&runtime, manifest, uninstall_request("demo", false));
    assert!(matches!(uninstall.unwrap_err(), StartFault::UnsupportedManifest { .. }));
    let missing =
        InstallDrive::start(&runtime, AppManifest::default(), &install_request("nope", false));
    assert!(matches!(missing.unwrap_err(), StartFault::Scope { .. }));
}

#[test]
fn a_preview_of_the_cache_foretells_what_is_done() {
    let runtime = two_app_runtime();
    let other = "/home/me/.shine/presets/app/demo2/other".to_string();
    let mut files = Files::new();
    files.insert(other.clone(), b"kept".to_vec());
    for (remove, purge) in [(false, false), (true, false), (true, true)] {
        let request = |dry_run| AppCacheRequest {
            prefix: "app/demo".to_string(),
            dry_run,
            remove,
            purge,
            overwrite: true,
        };
        for _ in 0..2 {
            let before = files.clone();
            let foretold = drive_cache(&runtime, &mut files, request(true));
            assert_eq!(files, before);
            let done = drive_cache(&runtime, &mut files, request(false));
            if foretold.status == LifecycleStatus::Previewed {
                assert_eq!(done.status, LifecycleStatus::Changed);
                assert_ne!(files, before);
            } else {
                assert_eq!(foretold.status, LifecycleStatus::Unchanged);
                assert_eq!(done.status, LifecycleStatus::Unchanged);
                assert!(foretold.effects.is_empty() && done.effects.is_empty());
                assert_eq!(files, before);
            }
            assert_eq!(files[&other], b"kept");
        }
    }
}

#[test]
fn a_preview_writes_nothing() {
    let decision = decide_copy_install(b"one", false, true, true, true, Some(b"two"));
    assert_eq!(decision, CopyInstall::Preview);
    assert_eq!(decide_copy_uninstall(1, true, true, None), CopyUninstall::Preview);
    let mut files = Files::new();
    let run = CopyInstallRun::start("/x", b"one", true, false, true, true);
    let (outcome, operations) = run_install(&mut files, run, &[]);
    assert!(matches!(outcome, Some(InstallOutcome::DryRun)));
    assert!(operations.is_empty() && files.is_empty());
}

#[test]
fn privileged_app_transaction_acquires_host_lock_before_mutation() {
    let mut files = Files::new();
    let run = CopyInstallRun::start("/etc/demo", b"managed", true, false, false, false);
    let (_, operations) = run_install(&mut files, run, &[]);
    let lock = operations
        .iter()
        .position(|operation| matches!(operation, HostOperation::AcquirePrivilegedOperation))
        .unwrap();
    let write = operations
        .iter()
        .position(|operation| matches!(operation, HostOperation::Write(path) if path == "/etc/demo"))
        .unwrap();
    assert!(lock < write);
}

#[test]
fn a_failed_install_gives_the_backup_back() {
    let mut files = Files::new();
    files.insert("/etc/demo".to_string(), b"mine".to_vec());
    let run = CopyInstallRun::start("/etc/demo", b"managed", true, false, false, false);
    let (outcome, operations) = run_install(&mut files, run, &["/etc/demo"]);
    assert!(outcome.is_none());
    assert_eq!(operations.len(), 3);
    assert_eq!(files.len(), 1);
    assert_eq!(files["/etc/demo"], b"mine");
    let run = CopyInstallRun::start("/etc/new", b"managed", false, false, false, false);
    let (outcome, _) = run_install(&mut files, run, &["/etc/new"]);
    assert!(outcome.is_none());
    assert_eq!(files.len(), 1);
}

#[test]
fn a_privileged_uninstall_returns_the_backup_under_the_lock() {
    let mut files = Files::new();
    files.insert("/etc/demo".to_string(), b"mine".to_vec());
    let run = CopyInstallRun::start("/etc/demo", b"managed", true, false, false, false);
    let (outcome, _) = run_install(&mut files, run, &[]);
    let (backup, content_hash) = match outcome {
        Some(InstallOutcome::BackedUpAndInstalled { backup, hash }) => (backup, hash),
        other => panic!("not backed up: {other:?}"),
    };
    let entry = AppEntry {
        source: "app/demo/config".to_string(),
        destination: "/etc/demo".to_string(),
        backup: Some(backup.clone()),
        content_hash,
        install_strategy: AppInstallStrategy::Copy,
        uses_env: false,
        requires_admin: true,
    };
    let run = CopyUninstallRun::start(entry.clone(), false, false);
    let (outcome, operations) = run_uninstall(&mut files, run);
    assert!(matches!(outcome, UninstallOutcome::RestoredBackup { backup: found } if found == backup));
    assert!(matches!(operations[0], HostOperation::AcquirePrivilegedOperation));
    assert_eq!(operations.len(), 3);
    assert_eq!(files["/etc/demo"], b"mine");
    let run = CopyUninstallRun::start(entry.clone(), false, false);
    assert!(matches!(run_uninstall(&mut files, run).0, UninstallOutcome::UserModified));
    let run = CopyUninstallRun::start(entry, false, true);
    assert!(matches!(run_uninstall(&mut files, run).0, UninstallOutcome::ForceRemoved));
    assert!(files.is_empty());
}

fn generator(auto: bool) -> AppGenerator {
    AppGenerator {
        script: "gen.sh".to_string(),
        runtime: ArtifactRuntime::Native,
        env: vec![spec("TOKEN", "SEEN"), spec("OTHER", "OTHER")],
        when_env: "TOKEN".to_string(),
        auto,
    }
}

fn generator_request(auto: bool, explicit: bool) -> AppGeneratorRequest {
    AppGeneratorRequest {
        category: "demo".to_string(),
        source: "config".to_string(),
        generator: generator(auto),
        explicit,
    }
}

fn code_runtime(external: bool, on_disk: bool) -> CoreRuntime {
    let mut builder = PresetSnapshot::builder(PresetSourceKind::Embedded);
    if on_disk {
        builder = builder.base_root("/presets".to_string());
    }
    let presets = builder
        .file("app/demo/gen.sh", b"#!/bin/sh\n".to_vec())
        .file("app/demo/up.sh", b"up".to_vec())
        .build();
    let mut context = RuntimeContext::isolated(
        "/home/me",
        "/home/me/.shine",
        "/home/me/.shine/presets",
        "/bin",
        RuntimePlatform::Linux,
    );
    context.is_external_presets = external;
    context.env.push(variable("TOKEN", "secret"));
    context.env.push(variable("OTHER", "plain"));
    CoreRuntime::new(context, presets)
}

#[test]
fn a_generator_runs_where_its_variable_is_set() {
    let mut runtime = code_runtime(false, false);
    assert!(matches!(
        runtime.start_app_generator(&generator_request(false, false)),
        GeneratorStart::Nothing
    ));
    let GeneratorStart::Run { steps, call } =
        runtime.start_app_generator(&generator_request(false, true))
    else {
        panic!("expected a run");
    };
    let script = "/home/me/.shine/runtime/app/demo/gen.sh";
    assert!(matches!(
        &steps[..],
        [HostStep::WriteFile { path, content, privileged: false }]
            if path == script && content == b"#!/bin/sh\n"
    ));
    let call = call.unwrap();
    assert_eq!(call.program, script);
    assert_eq!(call.cwd.as_deref(), Some("/home/me/.shine/runtime/app/demo"));
    assert_eq!(env_value(&call.env, "SEEN").as_deref(), Some("secret"));
    assert_eq!(env_value(&call.env, "SHINE_APP_ID").as_deref(), Some("demo"));
    assert_eq!(call.timeout_seconds, Some(30));
    assert_eq!(call.stdout_limit, Some(8 * 1024 * 1024));
    assert_eq!(call.stderr_limit, Some(64 * 1024));

    runtime.context.env.remove(1);
    let GeneratorStart::Run { call, .. } =
        runtime.start_app_generator(&generator_request(true, false))
    else {
        panic!("expected a run");
    };
    assert_eq!(
        call.unwrap_err(),
        "app 'demo' generator requires config env 'OTHER'"
    );
    runtime.context.env.clear();
    assert!(matches!(
        runtime.start_app_generator(&generator_request(true, true)),
        GeneratorStart::Nothing
    ));
}

#[test]
fn external_code_runs_only_where_it_was_allowed() {
    let mut runtime = code_runtime(true, true);
    let GeneratorStart::Refused(message) =
        runtime.start_app_generator(&generator_request(true, false))
    else {
        panic!("expected a refusal");
    };
    assert_eq!(
        message,
        "app 'demo' generator requires allow_app_hooks = true for external preset code"
    );
    runtime.context.allow_app_hooks = true;
    let GeneratorStart::Run { steps, call } =
        runtime.start_app_generator(&generator_request(true, false))
    else {
        panic!("expected a run");
    };
    assert!(steps.is_empty());
    let call = call.unwrap();
    assert_eq!(call.program, "/presets/app/demo/gen.sh");
    assert_eq!(call.cwd.as_deref(), Some("/presets/app/demo"));
    let overlay = PresetSnapshot::builder(PresetSourceKind::Embedded)
        .overlay_file("app/demo/extra", Vec::new())
        .build();
    let context = code_runtime(false, false).context;
    let runtime = CoreRuntime::new(context, overlay);
    assert!(runtime.ensure_app_code_allowed("demo", "hook").is_err());
    assert!(runtime.ensure_app_code_allowed("other", "hook").is_ok());
}

#[test]
fn a_missing_script_is_named() {
    let runtime = code_runtime(false, false);
    let mut request = generator_request(true, false);
    request.generator.script = "gone.sh".to_string();
    let GeneratorStart::Run { steps, call } = runtime.start_app_generator(&request) else {
        panic!("expected a run");
    };
    assert!(steps.is_empty());
    assert_eq!(call.unwrap_err(), "app script is missing: app/demo/gone.sh");
}

fn output(exit_code: Option<i32>, stdout: &[u8], stderr: &[u8]) -> ProcessOutput {
    ProcessOutput { exit_code, stdout: stdout.to_vec(), stderr: stderr.to_vec() }
}

#[test]
fn the_output_of_a_generator_has_to_be_text() {
    let made = finish_app_generator("demo", output(Some(0), b"text", b" noted \n")).unwrap();
    assert_eq!(made.content, b"text");
    assert_eq!(made.note.as_deref(), Some("noted"));
    let silent = finish_app_generator("demo", output(Some(0), b"", b" \n")).unwrap();
    assert!(silent.note.is_none());
    assert_eq!(
        finish_app_generator("demo", output(Some(0), &[0xff], b"")).unwrap_err(),
        "app 'demo' generator output is not UTF-8"
    );
    assert_eq!(
        finish_app_generator("demo", output(Some(-2), b"secret", b"secret")).unwrap_err(),
        "app 'demo' generator exited with -2 (details redacted)"
    );
    assert_eq!(
        finish_app_generator("demo", output(None, b"", b"")).unwrap_err(),
        "app 'demo' generator exited with signal (details redacted)"
    );
    assert!(matches!(
        generator_note_event("demo", "noted".to_string()),
        RuntimeEvent::ProcessOutput { code, target, stream, text }
            if code == "app_generator_note" && target == "app/demo" && stream == "stderr"
                && text == "noted"
    ));
}

#[test]
fn exit_codes_and_details_are_put_in_words() {
    assert_eq!(display_exit_code(Some(0)), "0");
    assert_eq!(display_exit_code(Some(i32::MIN)), "-2147483648");
    assert_eq!(display_exit_code(None), "signal");
    assert_eq!(process_detail(&output(None, b"out", b" err ")), ": err");
    assert_eq!(process_detail(&output(None, b"out", b"  ")), ": out");
    assert_eq!(process_detail(&output(None, b"", b"")), "");
    assert_eq!(process_detail(&output(None, b"", &[b'a', 0xff])), ": a\u{fffd}");
}

fn hook(command: &str) -> AppHook {
    AppHook {
        command: command.to_string(),
        args: vec!["--quiet".to_string()],
        show_output: true,
        env: vec![spec("TOKEN", "SEEN"), spec("UNSET", "UNSET")],
    }
}

fn category(hooks: Vec<AppHook>) -> AppCategory {
    AppCategory {
        name: "demo".to_string(),
        description: None,
        destination_root: None,
        files: Vec::new(),
        list_mode: AppListMode::Category,
        post_upgrade: Vec::new(),
        post_install: hooks,
        uses_metadata: true,
        has_explicit_files: true,
        artifact: None,
        permissions: None,
    }
}

fn hook_request(hooks: Vec<AppHook>, phase: AppHookPhase) -> AppHookRequest {
    AppHookRequest {
        categories: vec![category(Vec::new()), category(hooks)],
        changed: vec!["demo".to_string()],
        phase,
        show_success: true,
    }
}

#[test]
fn hooks_run_until_one_fails() {
    let runtime = code_runtime(false, false);
    let hooks = vec![hook("one"), hook("two")];
    let request = hook_request(hooks.clone(), AppHookPhase::PostInstall);
    let HookStart::Run(calls) = runtime.start_app_hooks(&request, "demo") else {
        panic!("expected a run");
    };
    assert_eq!(calls.len(), 2);
    assert_eq!(calls[0].program, "one");
    assert_eq!(calls[0].args, vec!["--quiet"]);
    assert_eq!(calls[0].env.len(), 1);
    assert!(calls[0].cwd.is_none());

    let mut progress = HookProgress::new();
    progress.record(&hooks[0], &Ok(output(Some(0), b"done\n", b"")), true);
    progress.record(&hooks[1], &Ok(output(Some(3), b"", b"broken")), true);
    assert_eq!(progress.notes, vec!["done"]);
    assert_eq!(progress.failure.as_deref(), Some("two exited with 3: broken"));
    let mut report = AppHookReport::new();
    let events = report.finish("demo", AppHookPhase::PostInstall, &progress, true);
    assert_eq!(events.len(), 2);
    assert!(matches!(&events[0], RuntimeEvent::Warning { code, .. } if code == "app_hook_failed"));
    assert!(matches!(&events[1], RuntimeEvent::ProcessOutput { text, .. } if text == "done"));
    assert_eq!(report.outcomes[0].status, LifecycleStatus::Failed);
    assert_eq!(report.outcomes[0].diagnostic_codes, vec!["app_hook_failed"]);
    assert_eq!(report.notes, vec!["done"]);
}

#[test]
fn hooks_that_complete_are_reported_as_code_that_ran() {
    let mut progress = HookProgress::new();
    progress.record(&hook("one"), &Ok(output(Some(0), b"done", b"")), false);
    assert!(progress.notes.is_empty() && progress.failure.is_none());
    let mut report = AppHookReport::new();
    assert!(report.finish("demo", AppHookPhase::PostUpgrade, &progress, false).is_empty());
    let events = report.finish("demo", AppHookPhase::PostUpgrade, &progress, true);
    assert!(matches!(
        &events[..],
        [RuntimeEvent::Progress { code, target }]
            if code == "app_hook_completed" && target == "app/demo"
    ));
    assert_eq!(report.outcomes[0].resource.as_deref(), Some("hook:post-upgrade"));
    assert_eq!(report.outcomes[0].effects, vec![LifecycleEffect::CodeExecuted]);
}

#[test]
fn hooks_that_cannot_start_fail() {
    let mut progress = HookProgress::new();
    progress.record(&hook("one"), &Err("no such file".to_string()), true);
    assert_eq!(progress.failure.as_deref(), Some("one: no such file"));
}

#[test]
fn hooks_of_external_presets_are_skipped_until_they_are_allowed() {
    let runtime = code_runtime(true, true);
    let request = hook_request(vec![hook("one")], AppHookPhase::PostInstall);
    let HookStart::Refused(detail) = runtime.start_app_hooks(&request, "demo") else {
        panic!("expected a refusal");
    };
    assert!(detail.contains("hook:post-install requires allow_app_hooks"));
    let mut report = AppHookReport::new();
    let event = report.refuse("demo", AppHookPhase::PostInstall, detail);
    assert!(matches!(
        event,
        RuntimeEvent::Warning { code, .. } if code == "app_hook_permission_required"
    ));
    assert_eq!(report.outcomes[0].status, LifecycleStatus::Skipped);
    let upgrade = hook_request(vec![hook("one")], AppHookPhase::PostUpgrade);
    assert!(matches!(runtime.start_app_hooks(&upgrade, "demo"), HookStart::Nothing));
    assert!(matches!(runtime.start_app_hooks(&request, "other"), HookStart::Nothing));
}

fn named_category(name: &str, hooks: Vec<AppHook>) -> AppCategory {
    AppCategory { name: name.to_string(), ..category(hooks) }
}

/// Runs hooks whose commands are in `failing` to a failure; gives what was called and
/// the codes of what was told.
fn drive_hooks(
    runtime: &CoreRuntime,
    request: AppHookRequest,
    failing: &[&str],
) -> (AppHookReport, Vec<String>, Vec<String>) {
    let mut called = Vec::new();
    let mut told = Vec::new();
    let mut drive = HookDrive::start(runtime, request);
    loop {
        match drive.next() {
            HookDemand::Run { index } => {
                let program = drive.call().program.clone();
                called.push(format!("{index}:{program}"));
                let code = if failing.contains(&program.as_str()) { 1 } else { 0 };
                drive.ran(Ok(output(Some(code), program.as_bytes(), b"")));
            }
            HookDemand::Tell => {
                for event in drive.events() {
                    told.push(match event {
                        RuntimeEvent::Warning { code, .. } => code.clone(),
                        RuntimeEvent::Progress { code, .. } => code.clone(),
                        RuntimeEvent::ProcessOutput { code, text, .. } => format!("{code}:{text}"),
                        event => panic!("unexpected event: {event:?}"),
                    });
                }
                drive.told();
            }
            HookDemand::Finish => return (drive.finish(), called, told),
        }
    }
}

#[test]
fn a_failing_hook_ends_its_category_and_no_other() {
    let runtime = code_runtime(false, false);
    let request = AppHookRequest {
        categories: vec![
            named_category("b", vec![hook("b1"), hook("b2")]),
            named_category("a", vec![hook("a1"), hook("a2"), hook("a3")]),
            named_category("none", Vec::new()),
        ],
        changed: ["a", "b", "gone", "none"].map(str::to_string).to_vec(),
        phase: AppHookPhase::PostInstall,
        show_success: true,
    };
    let (report, called, told) = drive_hooks(&runtime, request.clone(), &["a2"]);
    assert_eq!(called, vec!["0:a1", "1:a2", "0:b1", "1:b2"]);
    assert_eq!(
        told,
        vec![
            "app_hook_failed",
            "app_hook_note:a1",
            "app_hook_completed",
            "app_hook_note:b1",
            "app_hook_note:b2",
        ]
    );
    assert_eq!(report.outcomes.len(), 2);
    assert_eq!(report.outcomes[0].target, "app/a");
    assert_eq!(report.outcomes[0].status, LifecycleStatus::Failed);
    assert_eq!(report.outcomes[0].diagnostic_codes, vec!["app_hook_failed"]);
    assert_eq!(report.outcomes[1].status, LifecycleStatus::Changed);
    assert_eq!(report.outcomes[1].effects, vec![LifecycleEffect::CodeExecuted]);
    assert_eq!(report.notes, vec!["a1", "b1", "b2"]);
    let (report, called, _) = drive_hooks(&runtime, request, &["a1", "b1"]);
    assert_eq!(called, vec!["0:a1", "0:b1"]);
    assert!(report.outcomes.iter().all(|outcome| outcome.status == LifecycleStatus::Failed));
}

#[test]
fn hooks_that_may_not_run_are_told_and_not_called() {
    let runtime = code_runtime(true, true);
    let request = hook_request(vec![hook("one")], AppHookPhase::PostInstall);
    let (report, called, told) = drive_hooks(&runtime, request, &[]);
    assert!(called.is_empty());
    assert_eq!(told, vec!["app_hook_permission_required"]);
    assert_eq!(report.outcomes[0].status, LifecycleStatus::Skipped);
    let mut nothing = hook_request(Vec::new(), AppHookPhase::PostInstall);
    nothing.changed = Vec::new();
    let (report, called, told) = drive_hooks(&runtime, nothing, &[]);
    assert!(report.outcomes.is_empty() && called.is_empty() && told.is_empty());
}

fn artifact_request(action: AppArtifactAction, implicit: bool, dry_run: bool) -> AppArtifactRequest {
    AppArtifactRequest {
        category: "demo".to_string(),
        artifact: AppArtifact {
            script: "up.sh".to_string(),
            teardown: None,
            runtime: ArtifactRuntime::Native,
            env: Vec::new(),
        },
        action,
        implicit,
        dry_run,
    }
}

#[test]
fn an_artifact_is_built_from_its_whole_category() {
    let runtime = code_runtime(false, false);
    let start =
        runtime.start_app_artifact(&artifact_request(AppArtifactAction::Apply, false, false));
    let ArtifactStart::Run { steps, directories, call } = start else {
        panic!("expected a run");
    };
    assert_eq!(steps.len(), 2);
    assert_eq!(
        directories,
        vec![
            "/home/me/.shine/http/app/demo",
            "/home/me/.cache/shine/app/demo",
            "/home/me/.shine/state/app/demo",
        ]
    );
    let call = call.unwrap();
    assert_eq!(call.program, "/home/me/.shine/presets/app/demo/up.sh");
    assert_eq!(call.cwd.as_deref(), Some("/home/me/.shine/presets/app/demo"));
    assert_eq!(call.io, ProcessIo::Inherit);
}

#[test]
fn an_artifact_is_not_run_in_a_preview_or_without_a_script() {
    let runtime = code_runtime(true, false);
    let preview =
        runtime.start_app_artifact(&artifact_request(AppArtifactAction::Apply, false, true));
    assert!(matches!(
        preview,
        ArtifactStart::Done { outcome, event: None }
            if outcome.effects == vec![LifecycleEffect::CodeExecutionPreviewed]
    ));
    let removal =
        runtime.start_app_artifact(&artifact_request(AppArtifactAction::Remove, false, false));
    assert!(matches!(
        removal,
        ArtifactStart::Refused(message)
            if message == "app 'demo' does not define an artifact teardown script"
    ));
    let implicit =
        runtime.start_app_artifact(&artifact_request(AppArtifactAction::Apply, true, false));
    assert!(matches!(
        implicit,
        ArtifactStart::Done { outcome, event: Some(_) }
            if outcome.status == LifecycleStatus::Skipped
    ));
}

#[test]
fn a_failed_artifact_is_an_error_only_where_it_was_asked_for() {
    let asked = artifact_request(AppArtifactAction::Apply, false, false);
    let implied = artifact_request(AppArtifactAction::Apply, true, false);
    let (outcome, event) =
        finish_app_artifact(&asked, Ok(output(Some(0), b"", b""))).unwrap();
    assert_eq!(outcome.status, LifecycleStatus::Changed);
    assert!(event.is_none());
    assert_eq!(
        finish_app_artifact(&asked, Ok(output(Some(1), b"", b""))).unwrap_err(),
        "artifact script for 'demo' exited with 1"
    );
    let (outcome, event) =
        finish_app_artifact(&implied, Ok(output(Some(1), b"", b""))).unwrap();
    assert_eq!(outcome.diagnostic_codes, vec!["app_artifact_teardown_failed"]);
    assert!(matches!(
        event,
        Some(RuntimeEvent::Warning { detail, .. }) if detail == "artifact script exited with 1"
    ));
    assert_eq!(finish_app_artifact(&asked, Err("gone".to_string())).unwrap_err(), "gone");
    assert!(finish_app_artifact(&implied, Err("gone".to_string())).is_ok());
}

fn cache_request(prefix: &str, remove: bool, purge: bool, dry_run: bool) -> AppCacheRequest {
    AppCacheRequest { prefix: prefix.to_string(), dry_run, remove, purge, overwrite: true }
}

#[test]
fn the_cache_of_one_app_is_brought_up_to_date() {
    let runtime = code_runtime(false, false);
    let request = cache_request("app/demo/", false, false, false);
    let targets = runtime.plan_app_cache(&request);
    assert_eq!(targets.len(), 2);
    let CacheTarget::File { path, content } = &targets[0] else {
        panic!("expected a file");
    };
    assert_eq!(path, "/home/me/.shine/presets/app/demo/gen.sh");
    let mut run = CacheRun::new();
    assert_eq!(run.settle(&request, &targets[0], &Some(content.clone())), None);
    assert!(!run.changed);
    assert_eq!(
        run.settle(&request, &targets[0], &Some(b"old".to_vec())),
        Some(CacheStep::WriteFile)
    );
    assert_eq!(run.settle(&request, &targets[1], &None), Some(CacheStep::WriteFile));
    let outcome = finish_app_cache(&request, run);
    assert_eq!(outcome.target, "app/demo");
    assert_eq!(outcome.resource.as_deref(), Some("preset-cache"));
    assert_eq!(outcome.status, LifecycleStatus::Changed);
    assert_eq!(outcome.effects, vec![LifecycleEffect::CacheWritten]);
    assert!(runtime.plan_app_cache(&cache_request("app/dem", false, false, false)).is_empty());
}

#[test]
fn a_purge_of_all_apps_takes_the_manifest() {
    let runtime = code_runtime(false, false);
    let request = cache_request("app", true, true, true);
    let targets = runtime.plan_app_cache(&request);
    assert_eq!(targets.len(), 4);
    let mut run = CacheRun::new();
    for target in &targets {
        assert_eq!(run.settle(&request, target, &Some(Vec::new())), None);
    }
    let outcome = finish_app_cache(&request, run);
    assert_eq!(outcome.status, LifecycleStatus::Previewed);
    assert_eq!(
        outcome.effects,
        vec![LifecycleEffect::CacheRemovePreviewed, LifecycleEffect::ReceiptRemovePreviewed]
    );
    let real = cache_request("app", true, true, false);
    let mut run = CacheRun::new();
    assert_eq!(
        run.settle(&real, &targets[2], &Some(Vec::new())),
        Some(CacheStep::RemoveDirectory)
    );
    assert_eq!(run.settle(&real, &targets[3], &None), None);
    assert_eq!(finish_app_cache(&real, run).effects, vec![LifecycleEffect::CachePurged]);
    let mut untouched = CacheRun::new();
    assert_eq!(untouched.settle(&real, &targets[0], &None), None);
    assert_eq!(finish_app_cache(&real, untouched).status, LifecycleStatus::Unchanged);
}

#[test]
fn an_installed_file_is_kept_where_its_generator_fails() {
    let runtime = runtime();
    let categories = runtime.app_categories(None).unwrap();
    let file = &categories[0].files[0];
    let failed = |installed| Generated::Failed { error: "broken".to_string(), installed };
    assert!(matches!(
        runtime.app_raw_content("demo", file, failed(true)),
        Ok(RawContent::Kept(error)) if error == "broken"
    ));
    assert!(matches!(
        runtime.app_raw_content("demo", file, failed(false)),
        Err(AssessFault::Generator(error)) if error == "broken"
    ));
    assert!(matches!(
        runtime.app_raw_content("demo", file, Generated::Made(b"made".to_vec())),
        Ok(RawContent::Content(bytes)) if bytes == b"made"
    ));
    assert!(matches!(
        runtime.app_raw_content("other", file, Generated::Nothing),
        Err(AssessFault::Metadata(_))
    ));
    let mut file = file.clone();
    file.transforms = vec!["template".to_string(), "other".to_string()];
    assert_eq!(transform_failed(&file), "transform failed: template, other");
}
