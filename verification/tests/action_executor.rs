//! Operations on managed App files, driven over a host in memory: what a reviewed
//! operation leaves behind, and what recovery makes of an interrupted one.

use shine_core::action::{ActionIrV1, ActionKindV1, DeclarativeActionV1, ForcedManagedFileBackupV1};
use shine_core::action_build::{
    ForcedManagedFileRemoveSpecV1, ManagedFileCreationWithBackupSpecV1, ManagedFileRemoveSpecV1,
    ManagedFileRelocationSpecV1, ManagedFileRemoveWithBackupSpecV1, ManagedFileUpdateSpecV1,
    ManagedJsonMergeSpecV1, ManagedJsonRelocationSpecV1, ManagedJsonRemoveSpecV1,
};
use shine_core::commit_machine::{CommitDemand, CommitRun};
use shine_core::content::hash_content;
use shine_core::context::{RuntimeContext, RuntimePlatform};
use shine_core::execution_fault::{ExecutionFault, ExecutionKind};
use shine_core::execution_machine::{ExecutionDemand, ExecutionRun};
use shine_core::execution_run::AppOperationExecutionV1;
use shine_core::host::FileKind;
use shine_core::journal::{
    AppOperationJournalV1, JournalActionStateV1, APP_OPERATION_JOURNAL_FILE,
};
use shine_core::json::{installed_json_hash, managed_json_hash};
use shine_core::manifest::{
    AppEntry, AppInstallStrategy, AppManifest, APP_MANIFEST_SCHEMA_VERSION,
};
use shine_core::plan::{
    PermissionV1, PlanActionV1, PlanApprovalError, PlanApprovalV1, PlanInputsV1, PlanOperationV1,
    PlanStepV1, PlanV1, SnapshotDigestV1,
};
use shine_core::presets::{PresetSnapshot, PresetSourceKind};
use shine_core::receipts::matching_previous_app_receipt;
use shine_core::recovery::{
    assess_json_relocation_recovery, JsonRecoveryAssessment, JsonRelocationRecoveryAssessment,
    RecoveryFileObservation,
};
use shine_core::recovery_plan::roles_to_observe;
use shine_core::recovery_planner::receipts_contradict;
use shine_core::recovery_machine::{RecoveryDemand, RecoveryRun};
use shine_core::recovery_run::{
    restore_json_keys_from_rollback, AppRecoveryReportV1, HostStep,
};
use std::cell::RefCell;
use std::collections::BTreeMap;
use std::path::{Path, PathBuf};

const FILE_MODE: u32 = 0o100644;

#[derive(Clone, Debug, PartialEq)]
enum HostOperation {
    AcquirePrivilegedOperation,
    WritePrivileged(PathBuf),
    SetModePrivileged { path: PathBuf, mode: u32 },
    MovePrivileged { from: PathBuf, to: PathBuf },
    RemovePrivileged(PathBuf),
}

#[derive(Clone)]
enum Entry {
    File { bytes: Vec<u8>, mode: u32 },
    Link { target: PathBuf },
}

/// Files in memory, with the writes and moves that are to fail.
#[derive(Default)]
struct MemoryHost {
    entries: RefCell<BTreeMap<PathBuf, Entry>>,
    operations: RefCell<Vec<HostOperation>>,
    failing_writes: RefCell<BTreeMap<PathBuf, usize>>,
    failing_renames: RefCell<BTreeMap<(PathBuf, PathBuf), usize>>,
    journal: RefCell<Option<AppOperationJournalV1>>,
    manifest: RefCell<Option<AppManifest>>,
}

fn count_down<K: Ord>(left: &mut BTreeMap<K, usize>, key: &K) -> bool {
    match left.get_mut(key) {
        Some(0) => {
            left.remove(key);
            true
        }
        Some(count) => {
            *count -= 1;
            false
        }
        None => false,
    }
}

impl MemoryHost {
    fn put_file(&self, path: impl AsRef<Path>, bytes: Vec<u8>) {
        self.entries.borrow_mut().insert(
            path.as_ref().to_path_buf(),
            Entry::File { bytes, mode: FILE_MODE },
        );
    }

    fn fail_write_after(&self, path: impl AsRef<Path>, count: usize) {
        self.failing_writes.borrow_mut().insert(path.as_ref().to_path_buf(), count);
    }

    fn fail_rename_after(&self, from: impl AsRef<Path>, to: impl AsRef<Path>, count: usize) {
        self.failing_renames
            .borrow_mut()
            .insert((from.as_ref().to_path_buf(), to.as_ref().to_path_buf()), count);
    }

    fn operations(&self) -> Vec<HostOperation> {
        self.operations.borrow().clone()
    }

    fn note(&self, operation: HostOperation) {
        self.operations.borrow_mut().push(operation);
    }

    fn read(&self, path: impl AsRef<Path>) -> Result<Vec<u8>, String> {
        let entry = self.entries.borrow().get(path.as_ref()).cloned();
        match entry {
            Some(Entry::File { bytes, .. }) => Ok(bytes),
            Some(Entry::Link { target }) => self.read(target),
            None => Err("not found".to_string()),
        }
    }

    fn write(&self, path: &Path, bytes: Vec<u8>) -> Result<(), String> {
        if count_down(&mut self.failing_writes.borrow_mut(), &path.to_path_buf()) {
            return Err("write failed".to_string());
        }
        let mut entries = self.entries.borrow_mut();
        let mode = match entries.get(path) {
            Some(Entry::File { mode, .. }) => *mode,
            _ => FILE_MODE,
        };
        entries.insert(path.to_path_buf(), Entry::File { bytes, mode });
        Ok(())
    }

    fn rename(&self, from: &Path, to: &Path) -> Result<(), String> {
        let key = (from.to_path_buf(), to.to_path_buf());
        if count_down(&mut self.failing_renames.borrow_mut(), &key) {
            return Err("rename failed".to_string());
        }
        let mut entries = self.entries.borrow_mut();
        let entry = entries.remove(from).ok_or("not found")?;
        entries.insert(to.to_path_buf(), entry);
        Ok(())
    }

    fn remove_file(&self, path: impl AsRef<Path>) -> Result<(), String> {
        match self.entries.borrow_mut().remove(path.as_ref()) {
            Some(_) => Ok(()),
            None => Err("not found".to_string()),
        }
    }

    fn set_mode(&self, path: impl AsRef<Path>, new_mode: u32) -> Result<(), String> {
        match self.entries.borrow_mut().get_mut(path.as_ref()) {
            Some(Entry::File { mode, .. }) => {
                *mode = new_mode;
                Ok(())
            }
            _ => Err("not found".to_string()),
        }
    }

    fn symlink(&self, target: impl AsRef<Path>, link: impl AsRef<Path>) -> Result<(), String> {
        self.entries.borrow_mut().insert(
            link.as_ref().to_path_buf(),
            Entry::Link { target: target.as_ref().to_path_buf() },
        );
        Ok(())
    }

    fn observe(&self, path: &str) -> RecoveryFileObservation {
        match self.entries.borrow().get(Path::new(path)) {
            None => RecoveryFileObservation::Missing,
            Some(Entry::File { bytes, mode }) => {
                RecoveryFileObservation::Regular(bytes.clone(), Some(*mode))
            }
            Some(Entry::Link { .. }) => RecoveryFileObservation::Other(FileKind::Symlink),
        }
    }

    fn observe_roles(
        &self,
        kind: &ActionKindV1,
        roles: &[shine_core::action::PathRole],
    ) -> Vec<RecoveryFileObservation> {
        roles
            .iter()
            .map(|role| self.observe(kind.role_path(*role).unwrap()))
            .collect()
    }

    fn take(&self, step: &HostStep) -> Result<(), String> {
        match step {
            HostStep::RemoveFile { path, privileged } => {
                if *privileged {
                    self.note(HostOperation::RemovePrivileged(path.into()));
                }
                self.remove_file(path)
            }
            HostStep::MoveFile { from, to, privileged } => {
                if *privileged {
                    self.note(HostOperation::MovePrivileged { from: from.into(), to: to.into() });
                }
                self.rename(Path::new(from), Path::new(to))
            }
            HostStep::WriteFile { path, content, privileged } => {
                if *privileged {
                    self.note(HostOperation::WritePrivileged(path.into()));
                }
                self.write(Path::new(path), content.clone())
            }
            HostStep::SetMode { path, mode, privileged } => {
                if *privileged {
                    self.note(HostOperation::SetModePrivileged { path: path.into(), mode: *mode });
                }
                self.set_mode(path, *mode)
            }
            HostStep::RestoreJsonKeys { destination, rollback, keys } => {
                let mode = match self.observe(destination) {
                    RecoveryFileObservation::Regular(_, mode) => mode,
                    _ => None,
                };
                let steps = restore_json_keys_from_rollback(
                    destination,
                    rollback,
                    keys,
                    &self.read(destination)?,
                    &self.read(rollback)?,
                    mode,
                )
                .map_err(|fault| fault.message(keys))?;
                for step in &steps {
                    self.take(step)?;
                }
                Ok(())
            }
            HostStep::SaveManifest => unreachable!("saved by its owner"),
        }
    }
}

/// The directories of a runtime.
struct Directories {
    home_dir: PathBuf,
    shine_dir: PathBuf,
}

struct Runtime {
    host: MemoryHost,
    directories: Directories,
    context: RuntimeContext,
    presets: PresetSnapshot,
}

/// A finished operation, with its paths.
#[derive(Debug)]
struct Execution {
    handed: AppOperationExecutionV1,
    backup: Option<PathBuf>,
    forced: bool,
    privileged_operation: Option<()>,
}

fn runtime() -> Runtime {
    let home = PathBuf::from("/home/test");
    let shine = home.join(".shine");
    let context = RuntimeContext::isolated(
        "/home/test",
        "/home/test/.shine",
        "/home/test/.shine/presets",
        "/home/test/.shine/bin",
        RuntimePlatform::Linux,
    );
    Runtime {
        host: MemoryHost::default(),
        directories: Directories { home_dir: home, shine_dir: shine },
        context,
        presets: PresetSnapshot::builder(PresetSourceKind::External).build(),
    }
}

fn load_app_operation_journal(
    host: &MemoryHost,
    shine_dir: &Path,
) -> Result<Option<(AppOperationJournalV1, Vec<u8>)>, String> {
    match host.read(shine_dir.join(APP_OPERATION_JOURNAL_FILE)) {
        Err(_) => Ok(None),
        Ok(bytes) => {
            let mut journal = host.journal.borrow().clone().unwrap();
            let written = String::from_utf8(bytes.clone()).unwrap();
            let version = written.lines().next().unwrap().trim_start_matches("schema_version = ");
            journal.schema_version = version.parse().unwrap();
            journal.validate().map_err(|error| format!("{error:?}"))?;
            Ok(Some((journal, bytes)))
        }
    }
}

fn save_app_operation_journal(
    host: &MemoryHost,
    shine_dir: &Path,
    journal: &AppOperationJournalV1,
) -> Result<(), String> {
    journal.validate().map_err(|error| format!("{error:?}"))?;
    let version = journal.schema_version;
    let bytes = format!("schema_version = {version}\n{journal:?}").into_bytes();
    host.write(&shine_dir.join(APP_OPERATION_JOURNAL_FILE), bytes)?;
    *host.journal.borrow_mut() = Some(journal.clone());
    Ok(())
}

fn load_app_manifest_receipts(
    host: &MemoryHost,
    shine_dir: &Path,
) -> Result<(AppManifest, Option<Vec<u8>>), String> {
    match host.read(shine_dir.join("app-manifest.toml")) {
        Err(_) => Ok((AppManifest::default(), None)),
        Ok(bytes) => Ok((host.manifest.borrow().clone().unwrap(), Some(bytes))),
    }
}

fn save_manifest(runtime: &Runtime, manifest: &AppManifest) -> Result<(), String> {
    let path = runtime.context().shine_dir.join("app-manifest.toml");
    runtime.host.write(&path, format!("{manifest:?}").into_bytes())?;
    *runtime.host.manifest.borrow_mut() = Some(manifest.clone());
    Ok(())
}

fn parse_json_object(
    bytes: &[u8],
    _context: &str,
) -> Result<serde_json::Map<String, serde_json::Value>, String> {
    serde_json::from_slice(bytes).map_err(|error| error.to_string())
}

fn text(path: &Path) -> &str {
    path.to_str().unwrap()
}

fn managed_file_rollback_path(destination: &Path) -> PathBuf {
    shine_core::manifest::managed_file_rollback_path(text(destination)).into()
}

fn backup_path(destination: &Path) -> PathBuf {
    shine_core::manifest::backup_path(text(destination)).into()
}

impl Runtime {
    fn host(&self) -> &MemoryHost {
        &self.host
    }

    fn context(&self) -> &Directories {
        &self.directories
    }

    fn execute(
        &self,
        kind: ExecutionKind,
        plan: &PlanV1,
        approval: &PlanApprovalV1,
        ir: ActionIrV1,
        content: &[u8],
    ) -> Result<Execution, String> {
        let shine_dir = &self.context().shine_dir;
        let mut run = ExecutionRun::start(
            kind,
            &self.context,
            plan,
            approval.clone(),
            ir,
            content.to_vec(),
        )
        .map_err(|fault| fault.message(kind).to_string())?;
        loop {
            match run.next() {
                ExecutionDemand::Lock => {
                    self.host.note(HostOperation::AcquirePrivilegedOperation);
                    run.lock_acquired();
                }
                ExecutionDemand::Open => {
                    let present = load_app_operation_journal(&self.host, shine_dir)?.is_some();
                    let (manifest, _) = load_app_manifest_receipts(&self.host, shine_dir)?;
                    run.opened(present, &manifest)
                        .map_err(|fault| fault.message(kind).to_string())?;
                }
                ExecutionDemand::Inspect { role } => {
                    let action = &run.journal.action_ir.actions[0].kind;
                    let found = self.host.observe(action.role_path(role).unwrap());
                    run.inspected(&found).map_err(|fault| fault.message(kind).to_string())?;
                }
                ExecutionDemand::Refuse { fault } => return Err(fault.message(kind).to_string()),
                ExecutionDemand::Stage => {
                    run.stage().map_err(|fault| fault.summary().to_string())?;
                }
                ExecutionDemand::SaveJournal => {
                    save_app_operation_journal(&self.host, shine_dir, &run.journal)?;
                    run.journal_saved();
                }
                ExecutionDemand::Take { index } => {
                    self.host.take(&run.steps[index])?;
                    run.step_taken();
                }
                ExecutionDemand::MarkApplied => run.mark_applied(),
                ExecutionDemand::Finish => {
                    let handed = run.finish();
                    return Ok(Execution {
                        backup: handed.backup.clone().map(PathBuf::from),
                        forced: handed.forced,
                        privileged_operation: handed.holds_privileged_operation.then_some(()),
                        handed,
                    });
                }
            }
        }
    }

    fn execute_app_managed_file_creation_approved(
        &self,
        plan: &PlanV1,
        approval: &PlanApprovalV1,
        ir: ActionIrV1,
        content: &[u8],
    ) -> Result<Execution, String> {
        self.execute(ExecutionKind::FileCreation, plan, approval, ir, content)
    }

    fn execute_app_managed_file_update_approved(
        &self,
        plan: &PlanV1,
        approval: &PlanApprovalV1,
        ir: ActionIrV1,
        content: &[u8],
    ) -> Result<Execution, String> {
        self.execute(ExecutionKind::FileUpdate, plan, approval, ir, content)
    }

    fn execute_app_managed_json_merge_approved(
        &self,
        plan: &PlanV1,
        approval: &PlanApprovalV1,
        ir: ActionIrV1,
        content: &[u8],
    ) -> Result<Execution, String> {
        self.execute(ExecutionKind::JsonMerge, plan, approval, ir, content)
    }

    fn execute_app_managed_json_removal_approved(
        &self,
        plan: &PlanV1,
        approval: &PlanApprovalV1,
        ir: ActionIrV1,
    ) -> Result<Execution, String> {
        self.execute(ExecutionKind::JsonRemoval, plan, approval, ir, b"")
    }

    fn execute_app_managed_file_removal_approved(
        &self,
        plan: &PlanV1,
        approval: &PlanApprovalV1,
        ir: ActionIrV1,
    ) -> Result<Execution, String> {
        self.execute(ExecutionKind::FileRemoval, plan, approval, ir, b"")
    }

    fn commit_app_managed_file_operation(&self, execution: &Execution) -> Result<(), String> {
        let shine_dir = &self.context().shine_dir;
        let mut run = CommitRun::start(&execution.handed);
        loop {
            match run.next() {
                CommitDemand::Lock => {
                    self.host.note(HostOperation::AcquirePrivilegedOperation);
                    run.lock_acquired();
                }
                CommitDemand::Open => {
                    let (journal, _) = load_app_operation_journal(&self.host, shine_dir)?
                        .ok_or("no App operation journal is available to commit")?;
                    let (manifest, _) = load_app_manifest_receipts(&self.host, shine_dir)?;
                    run.opened(journal, &manifest).map_err(|fault| fault.message().to_string())?;
                }
                CommitDemand::SaveJournal => {
                    save_app_operation_journal(&self.host, shine_dir, run.journal())?;
                    run.journal_saved();
                }
                CommitDemand::Inspect { index } => {
                    let kind = run.journal().action_ir.actions[index].kind.clone();
                    let files = self.host.observe_roles(&kind, &run.roles());
                    let step =
                        run.inspected(&files).map_err(|fault| fault.message().to_string())?;
                    if let Some(step) = step {
                        self.host.take(&step)?;
                    }
                }
                CommitDemand::RemoveJournal => {
                    self.host.remove_file(shine_dir.join(APP_OPERATION_JOURNAL_FILE))?;
                    run.journal_removed();
                }
                CommitDemand::Finish => return Ok(()),
            }
        }
    }

    fn interrupted(&self) -> Result<Interrupted, String> {
        let shine_dir = &self.context().shine_dir;
        let (journal, journal_bytes) = load_app_operation_journal(&self.host, shine_dir)?
            .ok_or("no interrupted App operation is available for recovery")?;
        let (manifest, manifest_bytes) = load_app_manifest_receipts(&self.host, shine_dir)?;
        let mut files = Vec::new();
        for action in &journal.action_ir.actions {
            let state = journal.action_state(&action.action_id).unwrap();
            let committed = state == JournalActionStateV1::ReceiptCommitted;
            files.push(if receipts_contradict(&manifest, action, committed) {
                Vec::new()
            } else {
                self.host.observe_roles(&action.kind, &roles_to_observe(&action.kind))
            });
        }
        Ok(Interrupted { journal, journal_bytes, manifest, manifest_bytes, files })
    }

    fn plan_app_operation_recovery(&self) -> Result<PlanV1, String> {
        let found = self.interrupted()?;
        shine_core::recovery_planner::plan_app_operation_recovery(
            &self.context,
            &found.journal,
            &found.journal_bytes,
            &found.manifest,
            found.manifest_bytes.as_deref(),
            &found.files,
            self.presets.digest_v1(),
        )
        .map_err(|error| format!("{error:?}"))
    }

    fn start_recovery(&self, approval: &PlanApprovalV1) -> Result<RecoveryRun, String> {
        let found = self.interrupted()?;
        RecoveryRun::start(
            &self.context,
            found.journal,
            &found.journal_bytes,
            found.manifest,
            found.manifest_bytes.as_deref(),
            &found.files,
            self.presets.digest_v1(),
            approval,
        )
        .map_err(|error| format!("{error:?}"))
    }

    fn plan_again(&self, run: &mut RecoveryRun) -> Result<(), String> {
        let found = self.interrupted()?;
        run.planned_again(
            &self.context,
            found.journal,
            &found.journal_bytes,
            found.manifest,
            found.manifest_bytes.as_deref(),
            &found.files,
            self.presets.digest_v1(),
        )
        .map_err(|error| format!("{error:?}"))
    }

    fn recover_app_operation_approved(
        &self,
        approval: &PlanApprovalV1,
    ) -> Result<AppRecoveryReportV1, String> {
        let shine_dir = &self.context().shine_dir;
        let mut run = self.start_recovery(approval)?;
        loop {
            match run.next() {
                RecoveryDemand::Lock => {
                    self.host.note(HostOperation::AcquirePrivilegedOperation);
                    run.lock_acquired();
                }
                RecoveryDemand::PlanAgain => self.plan_again(&mut run)?,
                RecoveryDemand::Observe { .. } => {
                    let kind = run.action().kind.clone();
                    let files = self.host.observe_roles(&kind, &roles_to_observe(&kind));
                    run.observed(&files).map_err(|error| format!("{error:?}"))?;
                }
                RecoveryDemand::Take => {
                    self.host.take(run.step())?;
                    run.step_taken();
                }
                RecoveryDemand::SaveManifest => {
                    save_manifest(self, run.manifest())?;
                    run.step_taken();
                }
                RecoveryDemand::RemoveJournal => {
                    self.host.remove_file(shine_dir.join(APP_OPERATION_JOURNAL_FILE))?;
                    run.journal_removed();
                }
                RecoveryDemand::Finish => return Ok(run.report()),
            }
        }
    }
}

struct Interrupted {
    journal: AppOperationJournalV1,
    journal_bytes: Vec<u8>,
    manifest: AppManifest,
    manifest_bytes: Option<Vec<u8>>,
    files: Vec<Vec<RecoveryFileObservation>>,
}

fn config_path(runtime: &Runtime) -> String {
    text(&runtime.context().home_dir.join(".config/demo/config")).to_string()
}

fn action_ir(runtime: &Runtime, content: &[u8]) -> ActionIrV1 {
    ActionIrV1::new(
        "operation-1",
        vec![DeclarativeActionV1::create_managed_file(
            "action-1",
            "app/demo",
            "config",
            config_path(runtime),
            hash_content(content),
            false,
        )],
    )
}

fn backup_action_ir(runtime: &Runtime, original: &[u8], content: &[u8]) -> ActionIrV1 {
    let destination = config_path(runtime);
    ActionIrV1::new(
        "operation-backup",
        vec![DeclarativeActionV1::create_managed_file_with_backup(
            "action-backup",
            "app/demo",
            "config",
            ManagedFileCreationWithBackupSpecV1 {
                backup: shine_core::manifest::backup_path(&destination),
                destination,
                original_hash: hash_content(original),
                desired_hash: hash_content(content),
                requires_admin: false,
            },
        )],
    )
}

fn update_action_ir(runtime: &Runtime, original: &[u8], content: &[u8]) -> ActionIrV1 {
    ActionIrV1::new(
        "operation-update",
        vec![DeclarativeActionV1::update_managed_file(
            "action-update",
            "app/demo",
            "config",
            ManagedFileUpdateSpecV1 {
                destination: config_path(runtime),
                previous_backup: None,
                original_mode: Some(0o100644),
                original_hash: hash_content(original),
                desired_hash: hash_content(content),
                requires_admin: false,
            },
        )],
    )
}

fn remove_action_ir(runtime: &Runtime, original: &[u8]) -> ActionIrV1 {
    ActionIrV1::new(
        "operation-remove",
        vec![DeclarativeActionV1::remove_managed_file(
            "action-remove",
            "app/demo",
            "config",
            ManagedFileRemoveSpecV1 {
                destination: config_path(runtime),
                original_mode: Some(0o100644),
                original_hash: hash_content(original),
                uses_env: false,
                requires_admin: false,
            },
        )],
    )
}

fn backup_remove_action_ir(runtime: &Runtime, managed: &[u8], original: &[u8]) -> ActionIrV1 {
    let destination = config_path(runtime);
    ActionIrV1::new(
        "operation-remove-with-backup",
        vec![DeclarativeActionV1::remove_managed_file_with_backup(
            "action-remove-with-backup",
            "app/demo",
            "config",
            ManagedFileRemoveWithBackupSpecV1 {
                backup: shine_core::manifest::backup_path(&destination),
                destination,
                managed_mode: Some(0o100644),
                managed_hash: hash_content(managed),
                backup_mode: Some(0o100644),
                backup_hash: hash_content(original),
                uses_env: false,
                requires_admin: false,
            },
        )],
    )
}

fn forced_remove_action_ir(
    runtime: &Runtime,
    managed: &[u8],
    current: &[u8],
    original: Option<&[u8]>,
) -> ActionIrV1 {
    let destination = config_path(runtime);
    let persistent_backup = original.map(|content| ForcedManagedFileBackupV1 {
        path: shine_core::manifest::backup_path(&destination),
        mode: Some(0o100644),
        hash: hash_content(content),
    });
    ActionIrV1::new(
        "operation-forced-remove",
        vec![DeclarativeActionV1::force_remove_managed_file(
            "action-forced-remove",
            "app/demo",
            "config",
            ForcedManagedFileRemoveSpecV1 {
                destination,
                persistent_backup,
                receipt_hash: hash_content(managed),
                current_mode: Some(0o100644),
                current_hash: hash_content(current),
                uses_env: false,
                requires_admin: false,
            },
        )],
    )
}

fn json_keys() -> Vec<String> {
    vec!["proxy".to_string(), "containersProxy".to_string()]
}

fn json_merge_action_ir(
    runtime: &Runtime,
    original: Option<&[u8]>,
    previous_receipt_hash: Option<u64>,
    source: &[u8],
) -> ActionIrV1 {
    ActionIrV1::new(
        "operation-json-merge",
        vec![DeclarativeActionV1::merge_managed_json(
            "action-json-merge",
            "app/demo",
            "config",
            ManagedJsonMergeSpecV1 {
                destination: config_path(runtime),
                original_mode: original.map(|_| 0o100644),
                original_hash: original.map(hash_content),
                previous_receipt_hash,
                desired_managed_hash: managed_json_hash(source, &json_keys()).unwrap(),
                managed_keys: json_keys(),
            },
        )],
    )
}

fn json_remove_action_ir(runtime: &Runtime, receipt_source: &[u8], current: &[u8]) -> ActionIrV1 {
    ActionIrV1::new(
        "operation-json-remove",
        vec![DeclarativeActionV1::remove_managed_json(
            "action-json-remove",
            "app/demo",
            "config",
            ManagedJsonRemoveSpecV1 {
                destination: config_path(runtime),
                original_mode: Some(0o100644),
                original_hash: hash_content(current),
                receipt_managed_hash: managed_json_hash(receipt_source, &json_keys()).unwrap(),
                current_managed_hash: installed_json_hash(current, &json_keys())
                    .unwrap()
                    .unwrap(),
                managed_keys: json_keys(),
                uses_env: false,
            },
        )],
    )
}

fn privileged_removal_ir(mut ir: ActionIrV1) -> ActionIrV1 {
    for action in &mut ir.actions {
        match &mut action.kind {
            ActionKindV1::RemoveManagedFile { requires_admin, .. }
            | ActionKindV1::RemoveManagedFileWithBackup { requires_admin, .. }
            | ActionKindV1::ForceRemoveManagedFile { requires_admin, .. } => {
                *requires_admin = true;
            }
            _ => panic!("expected a managed-file removal action"),
        }
    }
    ir
}

fn privileged_managed_file_ir(mut ir: ActionIrV1) -> ActionIrV1 {
    for action in &mut ir.actions {
        match &mut action.kind {
            ActionKindV1::CreateManagedFile { requires_admin, .. }
            | ActionKindV1::CreateManagedFileWithBackup { requires_admin, .. }
            | ActionKindV1::UpdateManagedFile { requires_admin, .. } => {
                *requires_admin = true;
            }
            _ => panic!("expected a managed-file create or update action"),
        }
    }
    ir
}

fn approved_plan(
    runtime: &Runtime,
    ir: &ActionIrV1,
    operation: PlanOperationV1,
    state: &str,
    step: PlanStepV1,
) -> (PlanV1, PlanApprovalV1) {
    let required = ir.permission_requirements(&runtime.context).required;
    let plan = PlanV1::new(
        operation,
        PlanInputsV1 {
            preset: runtime.presets.digest_v1(),
            state: SnapshotDigestV1::builder(state).finish(),
        },
        vec![step],
        required.clone(),
        &required,
        Vec::new(),
    );
    let approval = PlanApprovalV1::for_reviewed_plan(&plan).unwrap();
    (plan, approval)
}

fn approved_install_plan(runtime: &Runtime, ir: &ActionIrV1) -> (PlanV1, PlanApprovalV1) {
    let step = PlanStepV1::new("app/demo", Some("config"), PlanActionV1::Create);
    approved_plan(runtime, ir, PlanOperationV1::Install, "test-state", step)
}

fn approved_update_plan(runtime: &Runtime, ir: &ActionIrV1) -> (PlanV1, PlanApprovalV1) {
    let step = PlanStepV1::new("app/demo", Some("config"), PlanActionV1::Update);
    approved_plan(runtime, ir, PlanOperationV1::Upgrade, "test-update-state", step)
}

fn approved_remove_plan(runtime: &Runtime, ir: &ActionIrV1) -> (PlanV1, PlanApprovalV1) {
    let step = PlanStepV1::new("app/demo", Some("config"), PlanActionV1::Remove);
    approved_plan(runtime, ir, PlanOperationV1::Uninstall, "test-remove-state", step)
}

fn approved_forced_remove_plan(runtime: &Runtime, ir: &ActionIrV1) -> (PlanV1, PlanApprovalV1) {
    let step = PlanStepV1::new("app/demo", Some("config"), PlanActionV1::Remove)
        .with_diagnostic_code("app_user_modification_override");
    approved_plan(runtime, ir, PlanOperationV1::Uninstall, "test-forced-remove-state", step)
}

fn save_receipt(
    runtime: &Runtime,
    content_hash: u64,
    backup: Option<PathBuf>,
    install_strategy: AppInstallStrategy,
    requires_admin: bool,
) {
    let manifest = AppManifest {
        schema_version: APP_MANIFEST_SCHEMA_VERSION,
        entries: vec![AppEntry {
            source: "app/demo/config".to_string(),
            destination: config_path(runtime),
            backup: backup.map(|path| text(&path).to_string()),
            content_hash,
            install_strategy,
            uses_env: false,
            requires_admin,
        }],
    };
    save_manifest(runtime, &manifest).unwrap();
}

fn save_matching_receipt(runtime: &Runtime, content: &[u8]) {
    save_matching_receipt_with_backup(runtime, content, None);
}

fn save_matching_receipt_with_backup(
    runtime: &Runtime,
    content: &[u8],
    backup: Option<PathBuf>,
) {
    save_receipt(runtime, hash_content(content), backup, AppInstallStrategy::Copy, false);
}

fn save_matching_privileged_receipt(
    runtime: &Runtime,
    content: &[u8],
    backup: Option<PathBuf>,
) {
    save_receipt(runtime, hash_content(content), backup, AppInstallStrategy::Copy, true);
}

fn save_json_receipt(runtime: &Runtime, source: &[u8]) {
    save_receipt(
        runtime,
        managed_json_hash(source, &json_keys()).unwrap(),
        None,
        AppInstallStrategy::JsonMerge { managed_keys: json_keys() },
        false,
    );
}

fn remove_matching_receipt(runtime: &Runtime) {
    let manifest =
        AppManifest { schema_version: APP_MANIFEST_SCHEMA_VERSION, entries: Vec::new() };
    save_manifest(runtime, &manifest).unwrap();
}

#[test]
fn managed_file_creation_stays_journaled_until_receipt_commit() {
    let runtime = runtime();
    let content = b"managed-content";
    let ir = action_ir(&runtime, content);
    let (plan, approval) = approved_install_plan(&runtime, &ir);
    let execution = runtime
        .execute_app_managed_file_creation_approved(&plan, &approval, ir, content)
        .unwrap();
    let journal_bytes = runtime
        .host()
        .read(&runtime.context().shine_dir.join(APP_OPERATION_JOURNAL_FILE))
        .unwrap();
    assert!(
        !String::from_utf8(journal_bytes)
            .unwrap()
            .contains("managed-content")
    );
    let error = runtime
        .commit_app_managed_file_operation(&execution)
        .unwrap_err();
    assert!(error.to_string().contains("matching manifest receipt"));
    assert!(
        runtime
            .host()
            .read(&runtime.context().shine_dir.join(APP_OPERATION_JOURNAL_FILE))
            .is_ok()
    );
    save_matching_receipt(&runtime, content);
    runtime
        .commit_app_managed_file_operation(&execution)
        .unwrap();
    assert!(
        runtime
            .host()
            .read(&runtime.context().shine_dir.join(APP_OPERATION_JOURNAL_FILE))
            .is_err()
    );
    assert_eq!(
        runtime
            .host()
            .read(&runtime.context().home_dir.join(".config/demo/config"))
            .unwrap(),
        content
    );
}

#[test]
fn privileged_creation_uses_privileged_write_and_holds_lock_through_commit() {
    let runtime = runtime();
    let content = b"managed-content";
    let ir = privileged_managed_file_ir(action_ir(&runtime, content));
    let (plan, approval) = approved_install_plan(&runtime, &ir);
    assert!(
        plan.permissions
            .required
            .contains(&PermissionV1::Administrator)
    );

    let execution = runtime
        .execute_app_managed_file_creation_approved(&plan, &approval, ir, content)
        .unwrap();
    assert!(execution.privileged_operation.is_some());
    let destination = runtime.context().home_dir.join(".config/demo/config");
    assert!(
        runtime
            .host()
            .operations()
            .contains(&HostOperation::WritePrivileged(destination.clone()))
    );

    save_matching_privileged_receipt(&runtime, content, None);
    runtime
        .commit_app_managed_file_operation(&execution)
        .unwrap();
    assert_eq!(runtime.host().read(&destination).unwrap(), content);
}

#[test]
fn privileged_creation_cleanup_after_durable_receipt_needs_no_admin() {
    let runtime = runtime();
    let content = b"managed-content";
    let ir = privileged_managed_file_ir(action_ir(&runtime, content));
    let (plan, approval) = approved_install_plan(&runtime, &ir);
    runtime
        .execute_app_managed_file_creation_approved(&plan, &approval, ir, content)
        .unwrap();
    save_matching_privileged_receipt(&runtime, content, None);

    let recovery_plan = runtime.plan_app_operation_recovery().unwrap();
    assert!(recovery_plan.is_ready());
    assert!(
        !recovery_plan
            .permissions
            .required
            .contains(&PermissionV1::Administrator)
    );
}

#[test]
fn interrupted_creation_rolls_back_only_after_a_fresh_recovery_plan() {
    let runtime = runtime();
    let content = b"managed-content";
    let ir = action_ir(&runtime, content);
    let (plan, approval) = approved_install_plan(&runtime, &ir);
    runtime.host().fail_write_after(
        runtime.context().shine_dir.join(APP_OPERATION_JOURNAL_FILE),
        1,
    );
    assert!(
        runtime
            .execute_app_managed_file_creation_approved(&plan, &approval, ir, content)
            .is_err()
    );
    let recovery_plan = runtime.plan_app_operation_recovery().unwrap();
    assert_eq!(recovery_plan.operation, PlanOperationV1::AppRecovery);
    let recovery_approval = PlanApprovalV1::for_reviewed_plan(&recovery_plan).unwrap();
    let recovered = runtime
        .recover_app_operation_approved(&recovery_approval)
        .unwrap();
    assert_eq!(recovered.rolled_back_actions, vec!["action-1"]);
    assert!(
        runtime
            .host()
            .read(&runtime.context().home_dir.join(".config/demo/config"))
            .is_err()
    );
}

#[test]
fn recovery_preserves_a_created_file_after_its_receipt_is_durable() {
    let runtime = runtime();
    let content = b"managed-content";
    let ir = action_ir(&runtime, content);
    let (plan, approval) = approved_install_plan(&runtime, &ir);
    runtime
        .execute_app_managed_file_creation_approved(&plan, &approval, ir, content)
        .unwrap();
    save_matching_receipt(&runtime, content);

    let recovery_plan = runtime.plan_app_operation_recovery().unwrap();
    assert!(recovery_plan.steps.iter().any(|step| {
        step.diagnostic_codes
            .contains(&"app_recovery_receipt_already_committed".to_string())
            && step.action == PlanActionV1::Nothing
    }));
    assert!(recovery_plan.steps.iter().any(|step| {
        step.target == "app"
            && step.resource.as_deref() == Some("operation-journal")
            && step.action == PlanActionV1::Remove
            && step
                .diagnostic_codes
                .contains(&"app_recovery_clear_journal".to_string())
    }));
    let recovery_approval = PlanApprovalV1::for_reviewed_plan(&recovery_plan).unwrap();
    let recovered = runtime
        .recover_app_operation_approved(&recovery_approval)
        .unwrap();
    assert!(recovered.rolled_back_actions.is_empty());
    assert_eq!(
        runtime
            .host()
            .read(&runtime.context().home_dir.join(".config/demo/config"))
            .unwrap(),
        content
    );
}

#[test]
fn recovery_plan_blocks_after_the_created_file_is_modified() {
    let runtime = runtime();
    let content = b"managed-content";
    let ir = action_ir(&runtime, content);
    let (plan, approval) = approved_install_plan(&runtime, &ir);
    runtime.host().fail_write_after(
        runtime.context().shine_dir.join(APP_OPERATION_JOURNAL_FILE),
        1,
    );
    let _ = runtime
        .execute_app_managed_file_creation_approved(&plan, &approval, ir, content);
    let destination = runtime.context().home_dir.join(".config/demo/config");
    runtime
        .host()
        .put_file(&destination, b"user-change".to_vec());
    let recovery_plan = runtime.plan_app_operation_recovery().unwrap();
    assert!(!recovery_plan.is_ready());
    assert!(recovery_plan.steps.iter().any(|step| {
        step.target == "app"
            && step.resource.as_deref() == Some("operation-journal")
            && step.action == PlanActionV1::Preserve
            && step
                .diagnostic_codes
                .contains(&"app_recovery_journal_preserved".to_string())
    }));
    assert_eq!(
        PlanApprovalV1::for_reviewed_plan(&recovery_plan).unwrap_err(),
        PlanApprovalError::PlanNotReady
    );
    assert_eq!(
        runtime.host().read(&destination).unwrap(),
        b"user-change"
    );
}

#[test]
fn creation_recovery_blocks_a_symlink_even_when_target_bytes_match() {
    let runtime = runtime();
    let content = b"managed-content";
    let ir = action_ir(&runtime, content);
    let (plan, approval) = approved_install_plan(&runtime, &ir);
    runtime.host().fail_write_after(
        runtime.context().shine_dir.join(APP_OPERATION_JOURNAL_FILE),
        1,
    );
    let _ = runtime
        .execute_app_managed_file_creation_approved(&plan, &approval, ir, content);
    let destination = runtime.context().home_dir.join(".config/demo/config");
    let symlink_target = runtime.context().home_dir.join("same-managed-content");
    runtime.host().remove_file(&destination).unwrap();
    runtime.host().put_file(&symlink_target, content.to_vec());
    runtime
        .host()
        .symlink(&symlink_target, &destination)
        .unwrap();

    let recovery_plan = runtime.plan_app_operation_recovery().unwrap();
    assert!(!recovery_plan.is_ready());
    assert!(recovery_plan.steps.iter().any(|step| {
        step.action == PlanActionV1::Blocked
            && step
                .diagnostic_codes
                .contains(&"app_recovery_user_modified".to_string())
    }));
    assert_eq!(runtime.host().read(&destination).unwrap(), content);
}

#[test]
fn backup_creation_commits_only_after_receipt_owns_both_paths() {
    let runtime = runtime();
    let original = b"user-original";
    let content = b"managed-content";
    let destination = runtime.context().home_dir.join(".config/demo/config");
    let backup = backup_path(&destination);
    runtime.host().put_file(&destination, original.to_vec());
    let ir = backup_action_ir(&runtime, original, content);
    let (plan, approval) = approved_install_plan(&runtime, &ir);

    let execution = runtime
        .execute_app_managed_file_creation_approved(&plan, &approval, ir, content)
        .unwrap();
    assert_eq!(execution.backup.as_ref(), Some(&backup));
    assert_eq!(runtime.host().read(&destination).unwrap(), content);
    assert_eq!(runtime.host().read(&backup).unwrap(), original);
    assert!(
        runtime
            .commit_app_managed_file_operation(&execution)
            .is_err()
    );

    save_matching_receipt_with_backup(&runtime, content, Some(backup.clone()));
    runtime
        .commit_app_managed_file_operation(&execution)
        .unwrap();
    assert!(
        runtime
            .host()
            .read(&runtime.context().shine_dir.join(APP_OPERATION_JOURNAL_FILE))
            .is_err()
    );
    assert_eq!(runtime.host().read(&destination).unwrap(), content);
    assert_eq!(runtime.host().read(&backup).unwrap(), original);
}

#[test]
fn failed_backup_rename_leaves_original_and_recovery_clears_journal() {
    let runtime = runtime();
    let original = b"user-original";
    let content = b"managed-content";
    let destination = runtime.context().home_dir.join(".config/demo/config");
    let backup = backup_path(&destination);
    runtime.host().put_file(&destination, original.to_vec());
    runtime.host().fail_rename_after(&destination, &backup, 0);
    let ir = backup_action_ir(&runtime, original, content);
    let (plan, approval) = approved_install_plan(&runtime, &ir);
    assert!(
        runtime
            .execute_app_managed_file_creation_approved(&plan, &approval, ir, content)
            .is_err()
    );

    let recovery_plan = runtime.plan_app_operation_recovery().unwrap();
    assert!(recovery_plan.steps.iter().any(|step| {
        step.action == PlanActionV1::Nothing
            && step
                .diagnostic_codes
                .contains(&"app_recovery_backup_creation_not_started".to_string())
    }));
    let recovery_approval = PlanApprovalV1::for_reviewed_plan(&recovery_plan).unwrap();
    runtime
        .recover_app_operation_approved(&recovery_approval)
        .unwrap();
    assert_eq!(runtime.host().read(&destination).unwrap(), original);
    assert!(runtime.host().read(&backup).is_err());
}

#[test]
fn interruption_after_backup_rename_restores_original() {
    let runtime = runtime();
    let original = b"user-original";
    let content = b"managed-content";
    let destination = runtime.context().home_dir.join(".config/demo/config");
    let backup = backup_path(&destination);
    runtime.host().put_file(&destination, original.to_vec());
    runtime.host().fail_write_after(&destination, 0);
    let ir = backup_action_ir(&runtime, original, content);
    let (plan, approval) = approved_install_plan(&runtime, &ir);
    assert!(
        runtime
            .execute_app_managed_file_creation_approved(&plan, &approval, ir, content)
            .is_err()
    );
    assert!(runtime.host().read(&destination).is_err());
    assert_eq!(runtime.host().read(&backup).unwrap(), original);

    let recovery_plan = runtime.plan_app_operation_recovery().unwrap();
    assert!(recovery_plan.steps.iter().any(|step| {
        step.action == PlanActionV1::Update
            && step
                .diagnostic_codes
                .contains(&"app_recovery_restore_backup".to_string())
    }));
    let recovery_approval = PlanApprovalV1::for_reviewed_plan(&recovery_plan).unwrap();
    runtime
        .recover_app_operation_approved(&recovery_approval)
        .unwrap();
    assert_eq!(runtime.host().read(&destination).unwrap(), original);
    assert!(runtime.host().read(&backup).is_err());
}

#[test]
fn interruption_after_managed_write_removes_it_before_restoring_backup() {
    let runtime = runtime();
    let original = b"user-original";
    let content = b"managed-content";
    let destination = runtime.context().home_dir.join(".config/demo/config");
    let backup = backup_path(&destination);
    runtime.host().put_file(&destination, original.to_vec());
    runtime.host().fail_write_after(
        runtime.context().shine_dir.join(APP_OPERATION_JOURNAL_FILE),
        1,
    );
    let ir = backup_action_ir(&runtime, original, content);
    let (plan, approval) = approved_install_plan(&runtime, &ir);
    assert!(
        runtime
            .execute_app_managed_file_creation_approved(&plan, &approval, ir, content)
            .is_err()
    );
    assert_eq!(runtime.host().read(&destination).unwrap(), content);
    assert_eq!(runtime.host().read(&backup).unwrap(), original);

    let recovery_plan = runtime.plan_app_operation_recovery().unwrap();
    let recovery_approval = PlanApprovalV1::for_reviewed_plan(&recovery_plan).unwrap();
    runtime
        .recover_app_operation_approved(&recovery_approval)
        .unwrap();
    assert_eq!(runtime.host().read(&destination).unwrap(), original);
    assert!(runtime.host().read(&backup).is_err());
}

#[test]
fn privileged_backup_creation_recovery_uses_privileged_paths() {
    let runtime = runtime();
    let original = b"user-original";
    let content = b"managed-content";
    let destination = runtime.context().home_dir.join(".config/demo/config");
    let backup = backup_path(&destination);
    runtime.host().put_file(&destination, original.to_vec());
    runtime.host().fail_write_after(
        runtime.context().shine_dir.join(APP_OPERATION_JOURNAL_FILE),
        1,
    );
    let ir = privileged_managed_file_ir(backup_action_ir(&runtime, original, content));
    let (plan, approval) = approved_install_plan(&runtime, &ir);
    assert!(
        runtime
            .execute_app_managed_file_creation_approved(&plan, &approval, ir, content)
            .is_err()
    );

    let recovery_plan = runtime.plan_app_operation_recovery().unwrap();
    assert!(
        recovery_plan
            .permissions
            .required
            .contains(&PermissionV1::Administrator)
    );
    let recovery_approval = PlanApprovalV1::for_reviewed_plan(&recovery_plan).unwrap();
    runtime
        .recover_app_operation_approved(&recovery_approval)
        .unwrap();
    assert_eq!(runtime.host().read(&destination).unwrap(), original);
    assert!(runtime.host().read(&backup).is_err());
    let operations = runtime.host().operations();
    assert!(operations.contains(&HostOperation::RemovePrivileged(destination.clone())));
    assert!(operations.contains(&HostOperation::MovePrivileged {
        from: backup,
        to: destination,
    }));
}

#[test]
fn backup_recovery_blocks_when_either_path_changed() {
    for change_backup in [false, true] {
        let runtime = runtime();
        let original = b"user-original";
        let content = b"managed-content";
        let destination = runtime.context().home_dir.join(".config/demo/config");
        let backup = backup_path(&destination);
        runtime.host().put_file(&destination, original.to_vec());
        runtime.host().fail_write_after(
            runtime.context().shine_dir.join(APP_OPERATION_JOURNAL_FILE),
            1,
        );
        let ir = backup_action_ir(&runtime, original, content);
        let (plan, approval) = approved_install_plan(&runtime, &ir);
        let _ = runtime
            .execute_app_managed_file_creation_approved(&plan, &approval, ir, content);
        runtime.host().put_file(
            if change_backup { &backup } else { &destination },
            b"user-change".to_vec(),
        );

        let recovery_plan = runtime.plan_app_operation_recovery().unwrap();
        assert!(!recovery_plan.is_ready());
        assert!(recovery_plan.steps.iter().any(|step| {
            step.action == PlanActionV1::Blocked
                && step
                    .diagnostic_codes
                    .contains(&"app_recovery_backup_state_changed".to_string())
        }));
        assert_eq!(
            runtime
                .host()
                .read(if change_backup { &backup } else { &destination })
                .unwrap(),
            b"user-change"
        );
    }
}

#[test]
fn backup_recovery_blocks_a_symlink_even_when_target_bytes_match() {
    let runtime = runtime();
    let original = b"user-original";
    let content = b"managed-content";
    let destination = runtime.context().home_dir.join(".config/demo/config");
    let backup = backup_path(&destination);
    let symlink_target = runtime.context().home_dir.join("same-content");
    runtime.host().put_file(&destination, original.to_vec());
    runtime.host().fail_write_after(
        runtime.context().shine_dir.join(APP_OPERATION_JOURNAL_FILE),
        1,
    );
    let ir = backup_action_ir(&runtime, original, content);
    let (plan, approval) = approved_install_plan(&runtime, &ir);
    let _ = runtime
        .execute_app_managed_file_creation_approved(&plan, &approval, ir, content);
    runtime.host().remove_file(&backup).unwrap();
    runtime.host().put_file(&symlink_target, original.to_vec());
    runtime
        .host()
        .symlink(&symlink_target, &backup)
        .unwrap();

    let recovery_plan = runtime.plan_app_operation_recovery().unwrap();
    assert!(!recovery_plan.is_ready());
    assert!(recovery_plan.steps.iter().any(|step| {
        step.action == PlanActionV1::Blocked
            && step
                .diagnostic_codes
                .contains(&"app_recovery_backup_state_changed".to_string())
    }));
    assert_eq!(runtime.host().read(&destination).unwrap(), content);
    assert_eq!(runtime.host().read(&backup).unwrap(), original);
}

#[test]
fn recovery_preserves_backup_creation_after_receipt_is_durable() {
    let runtime = runtime();
    let original = b"user-original";
    let content = b"managed-content";
    let destination = runtime.context().home_dir.join(".config/demo/config");
    let backup = backup_path(&destination);
    runtime.host().put_file(&destination, original.to_vec());
    let ir = backup_action_ir(&runtime, original, content);
    let (plan, approval) = approved_install_plan(&runtime, &ir);
    runtime
        .execute_app_managed_file_creation_approved(&plan, &approval, ir, content)
        .unwrap();
    save_matching_receipt_with_backup(&runtime, content, Some(backup.clone()));

    let recovery_plan = runtime.plan_app_operation_recovery().unwrap();
    let recovery_approval = PlanApprovalV1::for_reviewed_plan(&recovery_plan).unwrap();
    let recovered = runtime
        .recover_app_operation_approved(&recovery_approval)
        .unwrap();
    assert!(recovered.rolled_back_actions.is_empty());
    assert_eq!(runtime.host().read(&destination).unwrap(), content);
    assert_eq!(runtime.host().read(&backup).unwrap(), original);
}

#[test]
fn backup_recovery_blocks_on_a_mismatched_ownership_receipt() {
    let runtime = runtime();
    let original = b"user-original";
    let content = b"managed-content";
    let destination = runtime.context().home_dir.join(".config/demo/config");
    let backup = backup_path(&destination);
    runtime.host().put_file(&destination, original.to_vec());
    let ir = backup_action_ir(&runtime, original, content);
    let (plan, approval) = approved_install_plan(&runtime, &ir);
    runtime
        .execute_app_managed_file_creation_approved(&plan, &approval, ir, content)
        .unwrap();
    save_matching_receipt_with_backup(&runtime, content, None);

    let recovery_plan = runtime.plan_app_operation_recovery().unwrap();
    assert!(!recovery_plan.is_ready());
    assert!(recovery_plan.steps.iter().any(|step| {
        step.action == PlanActionV1::Blocked
            && step
                .diagnostic_codes
                .contains(&"app_recovery_receipt_conflict".to_string())
    }));
    assert_eq!(runtime.host().read(&destination).unwrap(), content);
    assert_eq!(runtime.host().read(&backup).unwrap(), original);
}

#[test]
fn future_journal_schema_fails_before_recovery_mutation() {
    let runtime = runtime();
    let content = b"managed-content";
    let ir = action_ir(&runtime, content);
    let (plan, approval) = approved_install_plan(&runtime, &ir);
    runtime.host().fail_write_after(
        runtime.context().shine_dir.join(APP_OPERATION_JOURNAL_FILE),
        1,
    );
    let _ = runtime
        .execute_app_managed_file_creation_approved(&plan, &approval, ir, content);
    let journal_path = runtime.context().shine_dir.join(APP_OPERATION_JOURNAL_FILE);
    let journal = String::from_utf8(runtime.host().read(&journal_path).unwrap()).unwrap();
    runtime.host().put_file(
        &journal_path,
        journal
            .replacen("schema_version = 1", "schema_version = 99", 1)
            .into_bytes(),
    );
    assert!(runtime.plan_app_operation_recovery().is_err());
    assert_eq!(
        runtime
            .host()
            .read(&runtime.context().home_dir.join(".config/demo/config"))
            .unwrap(),
        content
    );
}

#[test]
fn managed_update_retains_previous_bytes_until_receipt_commit() {
    let runtime = runtime();
    let original = b"previous-managed";
    let content = b"next-managed";
    let destination = runtime.context().home_dir.join(".config/demo/config");
    let rollback = managed_file_rollback_path(&destination);
    runtime.host().put_file(&destination, original.to_vec());
    save_matching_receipt(&runtime, original);
    let ir = update_action_ir(&runtime, original, content);
    let (plan, approval) = approved_update_plan(&runtime, &ir);

    let execution = runtime
        .execute_app_managed_file_update_approved(&plan, &approval, ir, content)
        .unwrap();
    assert_eq!(runtime.host().read(&destination).unwrap(), content);
    assert_eq!(runtime.host().read(&rollback).unwrap(), original);
    let journal = String::from_utf8(
        runtime
            .host()
            .read(&runtime.context().shine_dir.join(APP_OPERATION_JOURNAL_FILE))
            .unwrap(),
    )
    .unwrap();
    assert!(!journal.contains("previous-managed"));
    assert!(!journal.contains("next-managed"));

    save_matching_receipt(&runtime, content);
    runtime
        .commit_app_managed_file_operation(&execution)
        .unwrap();
    assert!(runtime.host().read(&rollback).is_err());
    assert!(
        runtime
            .host()
            .read(&runtime.context().shine_dir.join(APP_OPERATION_JOURNAL_FILE))
            .is_err()
    );
}

#[test]
fn privileged_update_uses_locked_privileged_move_write_mode_and_cleanup() {
    let runtime = runtime();
    let original = b"previous-managed";
    let content = b"next-managed";
    let destination = runtime.context().home_dir.join(".config/demo/config");
    let rollback = managed_file_rollback_path(&destination);
    runtime.host().put_file(&destination, original.to_vec());
    runtime
        .host()
        .set_mode(&destination, 0o100600)
        .unwrap();
    save_matching_privileged_receipt(&runtime, original, None);
    let mut ir = privileged_managed_file_ir(update_action_ir(&runtime, original, content));
    if let ActionKindV1::UpdateManagedFile { original_mode, .. } = &mut ir.actions[0].kind {
        *original_mode = Some(0o100600);
    }
    let (plan, approval) = approved_update_plan(&runtime, &ir);

    let execution = runtime
        .execute_app_managed_file_update_approved(&plan, &approval, ir, content)
        .unwrap();
    assert!(execution.privileged_operation.is_some());
    save_matching_privileged_receipt(&runtime, content, None);
    runtime
        .commit_app_managed_file_operation(&execution)
        .unwrap();

    let operations = runtime.host().operations();
    assert!(operations.contains(&HostOperation::MovePrivileged {
        from: destination.clone(),
        to: rollback.clone(),
    }));
    assert!(operations.contains(&HostOperation::WritePrivileged(destination.clone())));
    assert!(operations.contains(&HostOperation::SetModePrivileged {
        path: destination,
        mode: 0o100600,
    }));
    assert!(operations.contains(&HostOperation::RemovePrivileged(rollback)));
}

#[test]
fn interrupted_managed_update_restores_previous_receipt_bytes() {
    let runtime = runtime();
    let original = b"previous-managed";
    let content = b"next-managed";
    let destination = runtime.context().home_dir.join(".config/demo/config");
    let rollback = managed_file_rollback_path(&destination);
    runtime.host().put_file(&destination, original.to_vec());
    save_matching_receipt(&runtime, original);
    let ir = update_action_ir(&runtime, original, content);
    let (plan, approval) = approved_update_plan(&runtime, &ir);
    runtime.host().fail_write_after(
        runtime.context().shine_dir.join(APP_OPERATION_JOURNAL_FILE),
        1,
    );
    assert!(
        runtime
            .execute_app_managed_file_update_approved(&plan, &approval, ir, content)
            .is_err()
    );

    let recovery_plan = runtime.plan_app_operation_recovery().unwrap();
    assert!(recovery_plan.steps.iter().any(|step| {
        step.action == PlanActionV1::Update
            && step
                .diagnostic_codes
                .contains(&"app_recovery_restore_previous_managed_file".to_string())
    }));
    let recovery_approval = PlanApprovalV1::for_reviewed_plan(&recovery_plan).unwrap();
    let recovered = runtime
        .recover_app_operation_approved(&recovery_approval)
        .unwrap();
    assert_eq!(recovered.rolled_back_actions, vec!["action-update"]);
    assert_eq!(runtime.host().read(&destination).unwrap(), original);
    assert!(runtime.host().read(&rollback).is_err());
}

#[test]
fn managed_update_recovery_blocks_changed_rollback_material() {
    let runtime = runtime();
    let original = b"previous-managed";
    let content = b"next-managed";
    let destination = runtime.context().home_dir.join(".config/demo/config");
    let rollback = managed_file_rollback_path(&destination);
    runtime.host().put_file(&destination, original.to_vec());
    save_matching_receipt(&runtime, original);
    let ir = update_action_ir(&runtime, original, content);
    let (plan, approval) = approved_update_plan(&runtime, &ir);
    runtime.host().fail_write_after(
        runtime.context().shine_dir.join(APP_OPERATION_JOURNAL_FILE),
        1,
    );
    let _ = runtime
        .execute_app_managed_file_update_approved(&plan, &approval, ir, content);
    runtime.host().put_file(&rollback, b"user-change".to_vec());

    let recovery_plan = runtime.plan_app_operation_recovery().unwrap();
    assert!(!recovery_plan.is_ready());
    assert!(recovery_plan.steps.iter().any(|step| {
        step.action == PlanActionV1::Blocked
            && step
                .diagnostic_codes
                .contains(&"app_recovery_rollback_state_changed".to_string())
    }));
    assert_eq!(runtime.host().read(&destination).unwrap(), content);
    assert_eq!(
        runtime.host().read(&rollback).unwrap(),
        b"user-change"
    );
}

#[test]
fn managed_update_recovery_blocks_a_rollback_mode_change() {
    let runtime = runtime();
    let original = b"previous-managed";
    let content = b"next-managed";
    let destination = runtime.context().home_dir.join(".config/demo/config");
    let rollback = managed_file_rollback_path(&destination);
    runtime.host().put_file(&destination, original.to_vec());
    save_matching_receipt(&runtime, original);
    let ir = update_action_ir(&runtime, original, content);
    let (plan, approval) = approved_update_plan(&runtime, &ir);
    runtime.host().fail_write_after(
        runtime.context().shine_dir.join(APP_OPERATION_JOURNAL_FILE),
        1,
    );
    let _ = runtime
        .execute_app_managed_file_update_approved(&plan, &approval, ir, content);
    runtime.host().set_mode(&rollback, 0o100600).unwrap();

    let recovery_plan = runtime.plan_app_operation_recovery().unwrap();
    assert!(!recovery_plan.is_ready());
    assert!(recovery_plan.steps.iter().any(|step| {
        step.action == PlanActionV1::Blocked
            && step
                .diagnostic_codes
                .contains(&"app_recovery_rollback_state_changed".to_string())
    }));
    assert_eq!(runtime.host().read(&destination).unwrap(), content);
    assert_eq!(runtime.host().read(&rollback).unwrap(), original);
}

#[test]
fn recovery_after_update_receipt_commit_cleans_only_rollback_material() {
    let runtime = runtime();
    let original = b"previous-managed";
    let content = b"next-managed";
    let destination = runtime.context().home_dir.join(".config/demo/config");
    let rollback = managed_file_rollback_path(&destination);
    runtime.host().put_file(&destination, original.to_vec());
    save_matching_receipt(&runtime, original);
    let ir = update_action_ir(&runtime, original, content);
    let (plan, approval) = approved_update_plan(&runtime, &ir);
    runtime
        .execute_app_managed_file_update_approved(&plan, &approval, ir, content)
        .unwrap();
    save_matching_receipt(&runtime, content);

    let recovery_plan = runtime.plan_app_operation_recovery().unwrap();
    assert!(recovery_plan.steps.iter().any(|step| {
        step.action == PlanActionV1::Remove
            && step
                .diagnostic_codes
                .contains(&"app_recovery_remove_committed_rollback".to_string())
    }));
    let recovery_approval = PlanApprovalV1::for_reviewed_plan(&recovery_plan).unwrap();
    let recovered = runtime
        .recover_app_operation_approved(&recovery_approval)
        .unwrap();
    assert!(recovered.rolled_back_actions.is_empty());
    assert_eq!(runtime.host().read(&destination).unwrap(), content);
    assert!(runtime.host().read(&rollback).is_err());
}

#[test]
fn interrupted_json_update_restores_only_managed_keys() {
    let runtime = runtime();
    let previous_source = br#"{"proxy":{"mode":"old"},"containersProxy":{"mode":"old"}}"#;
    let next_source = br#"{"proxy":{"mode":"new"},"containersProxy":{"mode":"new"}}"#;
    let original =
        br#"{"proxy":{"mode":"old"},"containersProxy":{"mode":"old"},"theme":"light"}"#;
    let destination = runtime.context().home_dir.join(".config/demo/config");
    let rollback = managed_file_rollback_path(&destination);
    runtime.host().put_file(&destination, original.to_vec());
    save_json_receipt(&runtime, previous_source);
    let ir = json_merge_action_ir(
        &runtime,
        Some(original),
        Some(managed_json_hash(previous_source, &json_keys()).unwrap()),
        next_source,
    );
    let (plan, approval) = approved_update_plan(&runtime, &ir);
    runtime.host().fail_write_after(
        runtime.context().shine_dir.join(APP_OPERATION_JOURNAL_FILE),
        1,
    );
    assert!(
        runtime
            .execute_app_managed_json_merge_approved(&plan, &approval, ir, next_source)
            .is_err()
    );
    runtime.host().put_file(
        &destination,
        br#"{"proxy":{"mode":"new"},"containersProxy":{"mode":"new"},"theme":"dark","zoom":2}"#
            .to_vec(),
    );

    let recovery_plan = runtime.plan_app_operation_recovery().unwrap();
    assert!(recovery_plan.steps.iter().any(|step| {
        step.diagnostic_codes
            .contains(&"app_recovery_restore_json_managed_keys".to_string())
    }));
    let recovery_approval = PlanApprovalV1::for_reviewed_plan(&recovery_plan).unwrap();
    runtime
        .recover_app_operation_approved(&recovery_approval)
        .unwrap();

    let restored = runtime.host().read(&destination).unwrap();
    let restored = parse_json_object(&restored, "test JSON").unwrap();
    assert_eq!(restored["proxy"]["mode"], "old");
    assert_eq!(restored["containersProxy"]["mode"], "old");
    assert_eq!(restored["theme"], "dark");
    assert_eq!(restored["zoom"], 2);
    assert!(runtime.host().read(&rollback).is_err());
}

#[test]
fn interrupted_json_creation_removes_only_created_keys() {
    let runtime = runtime();
    let source = br#"{"proxy":{"mode":"new"},"containersProxy":{"mode":"new"}}"#;
    let destination = runtime.context().home_dir.join(".config/demo/config");
    let ir = json_merge_action_ir(&runtime, None, None, source);
    let (plan, approval) = approved_install_plan(&runtime, &ir);
    runtime.host().fail_write_after(
        runtime.context().shine_dir.join(APP_OPERATION_JOURNAL_FILE),
        1,
    );
    let _ = runtime
        .execute_app_managed_json_merge_approved(&plan, &approval, ir, source);
    runtime.host().put_file(
        &destination,
        br#"{"proxy":{"mode":"new"},"containersProxy":{"mode":"new"},"theme":"dark"}"#.to_vec(),
    );

    let recovery_plan = runtime.plan_app_operation_recovery().unwrap();
    let recovery_approval = PlanApprovalV1::for_reviewed_plan(&recovery_plan).unwrap();
    runtime
        .recover_app_operation_approved(&recovery_approval)
        .unwrap();
    let restored = runtime.host().read(&destination).unwrap();
    let restored = parse_json_object(&restored, "test JSON").unwrap();
    assert_eq!(restored["theme"], "dark");
    assert!(!restored.contains_key("proxy"));
    assert!(!restored.contains_key("containersProxy"));
}

#[test]
fn interrupted_json_removal_restores_receipt_and_only_managed_keys() {
    let runtime = runtime();
    let source = br#"{"proxy":{"mode":"managed"},"containersProxy":{"mode":"managed"}}"#;
    let current =
        br#"{"proxy":{"mode":"managed"},"containersProxy":{"mode":"managed"},"theme":"light"}"#;
    let destination = runtime.context().home_dir.join(".config/demo/config");
    runtime.host().put_file(&destination, current.to_vec());
    save_json_receipt(&runtime, source);
    let ir = json_remove_action_ir(&runtime, source, current);
    let (plan, approval) = approved_remove_plan(&runtime, &ir);
    runtime.host().fail_write_after(
        runtime.context().shine_dir.join(APP_OPERATION_JOURNAL_FILE),
        1,
    );
    let _ = runtime
        .execute_app_managed_json_removal_approved(&plan, &approval, ir);
    remove_matching_receipt(&runtime);
    runtime
        .host()
        .put_file(&destination, br#"{"theme":"dark","zoom":3}"#.to_vec());

    let recovery_plan = runtime.plan_app_operation_recovery().unwrap();
    let recovery_approval = PlanApprovalV1::for_reviewed_plan(&recovery_plan).unwrap();
    runtime
        .recover_app_operation_approved(&recovery_approval)
        .unwrap();
    let restored = runtime.host().read(&destination).unwrap();
    let restored = parse_json_object(&restored, "test JSON").unwrap();
    assert_eq!(restored["proxy"]["mode"], "managed");
    assert_eq!(restored["theme"], "dark");
    assert_eq!(restored["zoom"], 3);
    let (manifest, _) =
        load_app_manifest_receipts(runtime.host(), &runtime.context().shine_dir)
            .unwrap();
    assert!(matching_previous_app_receipt(
        &manifest,
        &json_remove_action_ir(&runtime, source, current).actions[0]
    ));
}

#[test]
fn forced_json_removal_commits_key_removal_and_preserves_unmanaged_values() {
    let runtime = runtime();
    let receipt_source = br#"{"proxy":"managed","containersProxy":"managed"}"#;
    let current = br#"{"proxy":"user","containersProxy":"managed","theme":"dark"}"#;
    let destination = runtime.context().home_dir.join(".config/demo/config");
    runtime.host().put_file(&destination, current.to_vec());
    save_json_receipt(&runtime, receipt_source);
    let ir = json_remove_action_ir(&runtime, receipt_source, current);
    let (plan, approval) = approved_forced_remove_plan(&runtime, &ir);
    let execution = runtime
        .execute_app_managed_json_removal_approved(&plan, &approval, ir)
        .unwrap();
    assert!(execution.forced);
    remove_matching_receipt(&runtime);
    runtime
        .commit_app_managed_file_operation(&execution)
        .unwrap();
    let remaining = runtime.host().read(&destination).unwrap();
    let remaining = parse_json_object(&remaining, "test JSON").unwrap();
    assert_eq!(remaining["theme"], "dark");
    assert!(!remaining.contains_key("proxy"));
    assert!(!remaining.contains_key("containersProxy"));
}

#[test]
fn committed_json_removal_cleanup_preserves_new_user_owned_keys() {
    let runtime = runtime();
    let source = br#"{"proxy":"managed","containersProxy":"managed"}"#;
    let current = br#"{"proxy":"managed","containersProxy":"managed","theme":"light"}"#;
    let destination = runtime.context().home_dir.join(".config/demo/config");
    let rollback = managed_file_rollback_path(&destination);
    runtime.host().put_file(&destination, current.to_vec());
    save_json_receipt(&runtime, source);
    let ir = json_remove_action_ir(&runtime, source, current);
    let (plan, approval) = approved_remove_plan(&runtime, &ir);
    runtime
        .execute_app_managed_json_removal_approved(&plan, &approval, ir)
        .unwrap();
    remove_matching_receipt(&runtime);
    let (mut journal, _) =
        load_app_operation_journal(runtime.host(), &runtime.context().shine_dir)
            .unwrap()
            .unwrap();
    journal
        .mark_receipt_committed("action-json-remove")
        .unwrap();
    save_app_operation_journal(runtime.host(), &runtime.context().shine_dir, &journal)
        .unwrap();
    runtime.host().put_file(
        &destination,
        br#"{"proxy":"user-owned","theme":"dark"}"#.to_vec(),
    );

    let recovery_plan = runtime.plan_app_operation_recovery().unwrap();
    let recovery_approval = PlanApprovalV1::for_reviewed_plan(&recovery_plan).unwrap();
    runtime
        .recover_app_operation_approved(&recovery_approval)
        .unwrap();
    assert_eq!(
        runtime.host().read(&destination).unwrap(),
        br#"{"proxy":"user-owned","theme":"dark"}"#
    );
    assert!(runtime.host().read(&rollback).is_err());
}

#[test]
fn forced_removal_retains_modified_bytes_until_receipt_removal_commit() {
    let runtime = runtime();
    let managed = b"managed";
    let current = b"user-modified";
    let destination = runtime.context().home_dir.join(".config/demo/config");
    let rollback = managed_file_rollback_path(&destination);
    runtime.host().put_file(&destination, current.to_vec());
    save_matching_receipt(&runtime, managed);
    let ir = forced_remove_action_ir(&runtime, managed, current, None);
    let (plan, approval) = approved_forced_remove_plan(&runtime, &ir);

    let execution = runtime
        .execute_app_managed_file_removal_approved(&plan, &approval, ir)
        .unwrap();
    assert!(execution.forced);
    assert!(execution.backup.is_none());
    assert!(runtime.host().read(&destination).is_err());
    assert_eq!(runtime.host().read(&rollback).unwrap(), current);
    assert!(
        runtime
            .commit_app_managed_file_operation(&execution)
            .is_err()
    );

    remove_matching_receipt(&runtime);
    runtime
        .commit_app_managed_file_operation(&execution)
        .unwrap();
    assert!(runtime.host().read(&destination).is_err());
    assert!(runtime.host().read(&rollback).is_err());
}

#[test]
fn interrupted_forced_removal_restores_modified_file_and_receipt() {
    let runtime = runtime();
    let managed = b"managed";
    let current = b"user-modified";
    let destination = runtime.context().home_dir.join(".config/demo/config");
    let rollback = managed_file_rollback_path(&destination);
    runtime.host().put_file(&destination, current.to_vec());
    save_matching_receipt(&runtime, managed);
    runtime.host().fail_write_after(
        runtime.context().shine_dir.join(APP_OPERATION_JOURNAL_FILE),
        1,
    );
    let ir = forced_remove_action_ir(&runtime, managed, current, None);
    let (plan, approval) = approved_forced_remove_plan(&runtime, &ir);
    assert!(
        runtime
            .execute_app_managed_file_removal_approved(&plan, &approval, ir)
            .is_err()
    );

    let recovery_plan = runtime.plan_app_operation_recovery().unwrap();
    assert!(recovery_plan.steps.iter().any(|step| {
        step.action == PlanActionV1::Update
            && step
                .diagnostic_codes
                .contains(&"app_recovery_restore_forced_managed_file".to_string())
    }));
    let recovery_approval = PlanApprovalV1::for_reviewed_plan(&recovery_plan).unwrap();
    let recovered = runtime
        .recover_app_operation_approved(&recovery_approval)
        .unwrap();
    assert_eq!(recovered.rolled_back_actions, vec!["action-forced-remove"]);
    assert_eq!(runtime.host().read(&destination).unwrap(), current);
    assert!(runtime.host().read(&rollback).is_err());
    let (manifest, _) =
        load_app_manifest_receipts(runtime.host(), &runtime.context().shine_dir)
            .unwrap();
    assert!(matching_previous_app_receipt(
        &manifest,
        &forced_remove_action_ir(&runtime, managed, current, None).actions[0]
    ));
}

#[test]
fn forced_removal_receipt_gap_restores_modified_file_and_receipt() {
    let runtime = runtime();
    let managed = b"managed";
    let current = b"user-modified";
    let destination = runtime.context().home_dir.join(".config/demo/config");
    let rollback = managed_file_rollback_path(&destination);
    runtime.host().put_file(&destination, current.to_vec());
    save_matching_receipt(&runtime, managed);
    let ir = forced_remove_action_ir(&runtime, managed, current, None);
    let (plan, approval) = approved_forced_remove_plan(&runtime, &ir);
    runtime
        .execute_app_managed_file_removal_approved(&plan, &approval, ir)
        .unwrap();
    remove_matching_receipt(&runtime);

    let recovery_plan = runtime.plan_app_operation_recovery().unwrap();
    assert!(recovery_plan.steps.iter().any(|step| {
        step.action == PlanActionV1::Update
            && step
                .diagnostic_codes
                .contains(&"app_recovery_restore_forced_managed_file".to_string())
    }));
    let recovery_approval = PlanApprovalV1::for_reviewed_plan(&recovery_plan).unwrap();
    runtime
        .recover_app_operation_approved(&recovery_approval)
        .unwrap();
    assert_eq!(runtime.host().read(&destination).unwrap(), current);
    assert!(runtime.host().read(&rollback).is_err());
    let (manifest, _) =
        load_app_manifest_receipts(runtime.host(), &runtime.context().shine_dir)
            .unwrap();
    assert!(matching_previous_app_receipt(
        &manifest,
        &forced_remove_action_ir(&runtime, managed, current, None).actions[0]
    ));
}

#[test]
fn committed_forced_removal_recovery_cleans_only_exact_rollback() {
    let runtime = runtime();
    let managed = b"managed";
    let current = b"user-modified";
    let destination = runtime.context().home_dir.join(".config/demo/config");
    let rollback = managed_file_rollback_path(&destination);
    runtime.host().put_file(&destination, current.to_vec());
    save_matching_receipt(&runtime, managed);
    let ir = forced_remove_action_ir(&runtime, managed, current, None);
    let (plan, approval) = approved_forced_remove_plan(&runtime, &ir);
    runtime
        .execute_app_managed_file_removal_approved(&plan, &approval, ir)
        .unwrap();
    remove_matching_receipt(&runtime);
    let (mut journal, _) =
        load_app_operation_journal(runtime.host(), &runtime.context().shine_dir)
            .unwrap()
            .unwrap();
    journal
        .mark_receipt_committed("action-forced-remove")
        .unwrap();
    save_app_operation_journal(runtime.host(), &runtime.context().shine_dir, &journal)
        .unwrap();

    let recovery_plan = runtime.plan_app_operation_recovery().unwrap();
    assert!(recovery_plan.steps.iter().any(|step| {
        step.action == PlanActionV1::Remove
            && step
                .diagnostic_codes
                .contains(&"app_recovery_remove_committed_forced_rollback".to_string())
    }));
    let recovery_approval = PlanApprovalV1::for_reviewed_plan(&recovery_plan).unwrap();
    let recovered = runtime
        .recover_app_operation_approved(&recovery_approval)
        .unwrap();
    assert!(recovered.rolled_back_actions.is_empty());
    assert!(runtime.host().read(&destination).is_err());
    assert!(runtime.host().read(&rollback).is_err());
}

#[test]
fn forced_removal_recovery_blocks_changed_modified_rollback() {
    let runtime = runtime();
    let managed = b"managed";
    let current = b"user-modified";
    let destination = runtime.context().home_dir.join(".config/demo/config");
    let rollback = managed_file_rollback_path(&destination);
    runtime.host().put_file(&destination, current.to_vec());
    save_matching_receipt(&runtime, managed);
    runtime.host().fail_write_after(
        runtime.context().shine_dir.join(APP_OPERATION_JOURNAL_FILE),
        1,
    );
    let ir = forced_remove_action_ir(&runtime, managed, current, None);
    let (plan, approval) = approved_forced_remove_plan(&runtime, &ir);
    let _ = runtime
        .execute_app_managed_file_removal_approved(&plan, &approval, ir);
    runtime
        .host()
        .put_file(&rollback, b"changed-after-interruption".to_vec());

    let recovery_plan = runtime.plan_app_operation_recovery().unwrap();
    assert!(!recovery_plan.is_ready());
    assert!(recovery_plan.steps.iter().any(|step| {
        step.action == PlanActionV1::Blocked
            && step
                .diagnostic_codes
                .contains(&"app_recovery_forced_removal_state_changed".to_string())
    }));
    assert!(runtime.host().read(&destination).is_err());
    assert_eq!(
        runtime.host().read(&rollback).unwrap(),
        b"changed-after-interruption"
    );
}

#[test]
fn forced_backup_removal_commits_restored_user_file() {
    let runtime = runtime();
    let managed = b"managed";
    let current = b"user-modified";
    let original = b"user-original";
    let destination = runtime.context().home_dir.join(".config/demo/config");
    let backup = backup_path(&destination);
    let rollback = managed_file_rollback_path(&destination);
    runtime.host().put_file(&destination, current.to_vec());
    runtime.host().put_file(&backup, original.to_vec());
    save_matching_receipt_with_backup(&runtime, managed, Some(backup.clone()));
    let ir = forced_remove_action_ir(&runtime, managed, current, Some(original));
    let (plan, approval) = approved_forced_remove_plan(&runtime, &ir);

    let execution = runtime
        .execute_app_managed_file_removal_approved(&plan, &approval, ir)
        .unwrap();
    assert!(execution.forced);
    assert_eq!(execution.backup.as_ref(), Some(&backup));
    assert_eq!(runtime.host().read(&destination).unwrap(), original);
    assert!(runtime.host().read(&backup).is_err());
    assert_eq!(runtime.host().read(&rollback).unwrap(), current);

    remove_matching_receipt(&runtime);
    runtime
        .commit_app_managed_file_operation(&execution)
        .unwrap();
    assert_eq!(runtime.host().read(&destination).unwrap(), original);
    assert!(runtime.host().read(&backup).is_err());
    assert!(runtime.host().read(&rollback).is_err());
}

#[test]
fn interrupted_forced_backup_removal_restores_modified_file_and_backup() {
    let runtime = runtime();
    let managed = b"managed";
    let current = b"user-modified";
    let original = b"user-original";
    let destination = runtime.context().home_dir.join(".config/demo/config");
    let backup = backup_path(&destination);
    let rollback = managed_file_rollback_path(&destination);
    runtime.host().put_file(&destination, current.to_vec());
    runtime.host().put_file(&backup, original.to_vec());
    save_matching_receipt_with_backup(&runtime, managed, Some(backup.clone()));
    runtime.host().fail_write_after(
        runtime.context().shine_dir.join(APP_OPERATION_JOURNAL_FILE),
        1,
    );
    let ir = forced_remove_action_ir(&runtime, managed, current, Some(original));
    let (plan, approval) = approved_forced_remove_plan(&runtime, &ir);
    assert!(
        runtime
            .execute_app_managed_file_removal_approved(&plan, &approval, ir)
            .is_err()
    );

    let recovery_plan = runtime.plan_app_operation_recovery().unwrap();
    assert!(recovery_plan.steps.iter().any(|step| {
        step.action == PlanActionV1::Update
            && step
                .diagnostic_codes
                .contains(&"app_recovery_restore_forced_file_and_backup".to_string())
    }));
    let recovery_approval = PlanApprovalV1::for_reviewed_plan(&recovery_plan).unwrap();
    runtime
        .recover_app_operation_approved(&recovery_approval)
        .unwrap();
    assert_eq!(runtime.host().read(&destination).unwrap(), current);
    assert_eq!(runtime.host().read(&backup).unwrap(), original);
    assert!(runtime.host().read(&rollback).is_err());
}

#[test]
fn interrupted_privileged_removal_requires_admin_and_uses_privileged_recovery_move() {
    let runtime = runtime();
    let managed = b"managed";
    let destination = runtime.context().home_dir.join(".config/demo/config");
    let rollback = managed_file_rollback_path(&destination);
    runtime.host().put_file(&destination, managed.to_vec());
    save_matching_privileged_receipt(&runtime, managed, None);
    runtime.host().fail_write_after(
        runtime.context().shine_dir.join(APP_OPERATION_JOURNAL_FILE),
        1,
    );
    let ir = privileged_removal_ir(remove_action_ir(&runtime, managed));
    let (plan, approval) = approved_remove_plan(&runtime, &ir);
    assert!(
        approval
            .approved_permissions
            .contains(&PermissionV1::Administrator)
    );
    assert!(
        runtime
            .execute_app_managed_file_removal_approved(&plan, &approval, ir)
            .is_err()
    );
    assert!(
        runtime
            .host()
            .operations()
            .contains(&HostOperation::MovePrivileged {
                from: destination.clone(),
                to: rollback.clone(),
            })
    );

    let recovery_plan = runtime.plan_app_operation_recovery().unwrap();
    assert!(
        recovery_plan
            .permissions
            .required
            .contains(&PermissionV1::Administrator)
    );
    let recovery_approval = PlanApprovalV1::for_reviewed_plan(&recovery_plan).unwrap();
    runtime
        .recover_app_operation_approved(&recovery_approval)
        .unwrap();
    assert_eq!(runtime.host().read(&destination).unwrap(), managed);
    assert!(runtime.host().read(&rollback).is_err());
    assert!(
        runtime
            .host()
            .operations()
            .contains(&HostOperation::MovePrivileged {
                from: rollback,
                to: destination,
            })
    );
}

#[test]
fn privileged_removal_holds_one_admin_lock_through_receipt_commit() {
    let runtime = runtime();
    let managed = b"managed";
    let destination = runtime.context().home_dir.join(".config/demo/config");
    runtime.host().put_file(&destination, managed.to_vec());
    save_matching_privileged_receipt(&runtime, managed, None);
    let ir = privileged_removal_ir(remove_action_ir(&runtime, managed));
    let (plan, approval) = approved_remove_plan(&runtime, &ir);

    let execution = runtime
        .execute_app_managed_file_removal_approved(&plan, &approval, ir)
        .unwrap();
    assert!(execution.privileged_operation.is_some());
    remove_matching_receipt(&runtime);
    runtime
        .commit_app_managed_file_operation(&execution)
        .unwrap();

    assert_eq!(
        runtime
            .host()
            .operations()
            .iter()
            .filter(|operation| matches!(operation, HostOperation::AcquirePrivilegedOperation))
            .count(),
        1
    );
}

#[test]
fn privileged_removal_receipt_only_recovery_does_not_request_admin() {
    let runtime = runtime();
    let managed = b"managed";
    let destination = runtime.context().home_dir.join(".config/demo/config");
    runtime.host().put_file(&destination, managed.to_vec());
    save_matching_privileged_receipt(&runtime, managed, None);
    let ir = privileged_removal_ir(remove_action_ir(&runtime, managed));
    let (_plan, approval) = approved_remove_plan(&runtime, &ir);
    let journal = AppOperationJournalV1::new(ir, approval);
    save_app_operation_journal(runtime.host(), &runtime.context().shine_dir, &journal)
        .unwrap();
    remove_matching_receipt(&runtime);

    let recovery_plan = runtime.plan_app_operation_recovery().unwrap();
    assert!(recovery_plan.steps.iter().any(|step| {
        step.action == PlanActionV1::Update
            && step
                .diagnostic_codes
                .contains(&"app_recovery_restore_removed_receipt".to_string())
    }));
    assert!(
        !recovery_plan
            .permissions
            .required
            .contains(&PermissionV1::Administrator)
    );
    let recovery_approval = PlanApprovalV1::for_reviewed_plan(&recovery_plan).unwrap();
    runtime
        .recover_app_operation_approved(&recovery_approval)
        .unwrap();
    assert_eq!(runtime.host().read(&destination).unwrap(), managed);
    let (manifest, _) =
        load_app_manifest_receipts(runtime.host(), &runtime.context().shine_dir)
            .unwrap();
    assert!(manifest.entries[0].requires_admin);
    assert!(
        !runtime.host().operations().iter().any(|operation| matches!(
            operation,
            HostOperation::MovePrivileged { .. } | HostOperation::RemovePrivileged(_)
        ))
    );
}

#[test]
fn managed_removal_retains_previous_bytes_until_receipt_removal_commit() {
    let runtime = runtime();
    let original = b"previous-managed";
    let destination = runtime.context().home_dir.join(".config/demo/config");
    let rollback = managed_file_rollback_path(&destination);
    runtime.host().put_file(&destination, original.to_vec());
    save_matching_receipt(&runtime, original);
    let ir = remove_action_ir(&runtime, original);
    let (plan, approval) = approved_remove_plan(&runtime, &ir);

    let execution = runtime
        .execute_app_managed_file_removal_approved(&plan, &approval, ir)
        .unwrap();
    assert!(runtime.host().read(&destination).is_err());
    assert_eq!(runtime.host().read(&rollback).unwrap(), original);
    let journal = String::from_utf8(
        runtime
            .host()
            .read(&runtime.context().shine_dir.join(APP_OPERATION_JOURNAL_FILE))
            .unwrap(),
    )
    .unwrap();
    assert!(!journal.contains("previous-managed"));

    remove_matching_receipt(&runtime);
    runtime
        .commit_app_managed_file_operation(&execution)
        .unwrap();
    assert!(runtime.host().read(&rollback).is_err());
    assert!(
        runtime
            .host()
            .read(&runtime.context().shine_dir.join(APP_OPERATION_JOURNAL_FILE))
            .is_err()
    );
}

#[test]
fn interrupted_managed_removal_restores_file_while_receipt_remains() {
    let runtime = runtime();
    let original = b"previous-managed";
    let destination = runtime.context().home_dir.join(".config/demo/config");
    let rollback = managed_file_rollback_path(&destination);
    runtime.host().put_file(&destination, original.to_vec());
    save_matching_receipt(&runtime, original);
    let ir = remove_action_ir(&runtime, original);
    let (plan, approval) = approved_remove_plan(&runtime, &ir);
    runtime.host().fail_write_after(
        runtime.context().shine_dir.join(APP_OPERATION_JOURNAL_FILE),
        1,
    );
    assert!(
        runtime
            .execute_app_managed_file_removal_approved(&plan, &approval, ir)
            .is_err()
    );
    assert!(runtime.host().read(&destination).is_err());
    assert_eq!(runtime.host().read(&rollback).unwrap(), original);

    let recovery_plan = runtime.plan_app_operation_recovery().unwrap();
    assert!(recovery_plan.steps.iter().any(|step| {
        step.action == PlanActionV1::Update
            && step
                .diagnostic_codes
                .contains(&"app_recovery_restore_removed_managed_file".to_string())
    }));
    let recovery_approval = PlanApprovalV1::for_reviewed_plan(&recovery_plan).unwrap();
    let recovered = runtime
        .recover_app_operation_approved(&recovery_approval)
        .unwrap();
    assert_eq!(recovered.rolled_back_actions, vec!["action-remove"]);
    assert_eq!(runtime.host().read(&destination).unwrap(), original);
    assert!(runtime.host().read(&rollback).is_err());
}

#[test]
fn removal_receipt_absence_without_marker_rolls_back_file_and_receipt() {
    let runtime = runtime();
    let original = b"previous-managed";
    let destination = runtime.context().home_dir.join(".config/demo/config");
    let rollback = managed_file_rollback_path(&destination);
    runtime.host().put_file(&destination, original.to_vec());
    save_matching_receipt(&runtime, original);
    let ir = remove_action_ir(&runtime, original);
    let (plan, approval) = approved_remove_plan(&runtime, &ir);
    runtime
        .execute_app_managed_file_removal_approved(&plan, &approval, ir)
        .unwrap();
    remove_matching_receipt(&runtime);

    let recovery_plan = runtime.plan_app_operation_recovery().unwrap();
    assert!(recovery_plan.is_ready());
    assert!(recovery_plan.steps.iter().any(|step| {
        step.action == PlanActionV1::Update
            && step
                .diagnostic_codes
                .contains(&"app_recovery_restore_removed_file_and_receipt".to_string())
    }));
    let recovery_approval = PlanApprovalV1::for_reviewed_plan(&recovery_plan).unwrap();
    runtime
        .recover_app_operation_approved(&recovery_approval)
        .unwrap();
    assert_eq!(runtime.host().read(&destination).unwrap(), original);
    assert!(runtime.host().read(&rollback).is_err());
    let (manifest, _) =
        load_app_manifest_receipts(runtime.host(), &runtime.context().shine_dir)
            .unwrap();
    assert!(matching_previous_app_receipt(
        &manifest,
        &remove_action_ir(&runtime, original).actions[0]
    ));
}

#[test]
fn removal_receipt_commit_marker_allows_rollback_cleanup() {
    let runtime = runtime();
    let original = b"previous-managed";
    let destination = runtime.context().home_dir.join(".config/demo/config");
    let rollback = managed_file_rollback_path(&destination);
    runtime.host().put_file(&destination, original.to_vec());
    save_matching_receipt(&runtime, original);
    let ir = remove_action_ir(&runtime, original);
    let (plan, approval) = approved_remove_plan(&runtime, &ir);
    runtime
        .execute_app_managed_file_removal_approved(&plan, &approval, ir)
        .unwrap();
    remove_matching_receipt(&runtime);

    let (mut journal, _) =
        load_app_operation_journal(runtime.host(), &runtime.context().shine_dir)
            .unwrap()
            .unwrap();
    journal.mark_receipt_committed("action-remove").unwrap();
    save_app_operation_journal(runtime.host(), &runtime.context().shine_dir, &journal)
        .unwrap();

    let recovery_plan = runtime.plan_app_operation_recovery().unwrap();
    assert!(recovery_plan.steps.iter().any(|step| {
        step.action == PlanActionV1::Remove
            && step
                .diagnostic_codes
                .contains(&"app_recovery_remove_committed_removal_rollback".to_string())
    }));
    let recovery_approval = PlanApprovalV1::for_reviewed_plan(&recovery_plan).unwrap();
    let recovered = runtime
        .recover_app_operation_approved(&recovery_approval)
        .unwrap();
    assert!(recovered.rolled_back_actions.is_empty());
    assert!(runtime.host().read(&destination).is_err());
    assert!(runtime.host().read(&rollback).is_err());
}

#[test]
fn backup_restoring_removal_commits_only_after_receipt_removal() {
    let runtime = runtime();
    let managed = b"managed";
    let original = b"user-original";
    let destination = runtime.context().home_dir.join(".config/demo/config");
    let backup = backup_path(&destination);
    let rollback = managed_file_rollback_path(&destination);
    runtime.host().put_file(&destination, managed.to_vec());
    runtime.host().put_file(&backup, original.to_vec());
    save_matching_receipt_with_backup(&runtime, managed, Some(backup.clone()));
    let ir = backup_remove_action_ir(&runtime, managed, original);
    let (plan, approval) = approved_remove_plan(&runtime, &ir);

    let execution = runtime
        .execute_app_managed_file_removal_approved(&plan, &approval, ir)
        .unwrap();
    assert_eq!(execution.backup.as_ref(), Some(&backup));
    assert_eq!(runtime.host().read(&destination).unwrap(), original);
    assert!(runtime.host().read(&backup).is_err());
    assert_eq!(runtime.host().read(&rollback).unwrap(), managed);
    assert!(
        runtime
            .commit_app_managed_file_operation(&execution)
            .is_err()
    );

    remove_matching_receipt(&runtime);
    runtime
        .commit_app_managed_file_operation(&execution)
        .unwrap();
    assert_eq!(runtime.host().read(&destination).unwrap(), original);
    assert!(runtime.host().read(&backup).is_err());
    assert!(runtime.host().read(&rollback).is_err());
    assert!(
        runtime
            .host()
            .read(&runtime.context().shine_dir.join(APP_OPERATION_JOURNAL_FILE))
            .is_err()
    );
}

#[test]
fn interruption_between_removal_renames_restores_managed_file() {
    let runtime = runtime();
    let managed = b"managed";
    let original = b"user-original";
    let destination = runtime.context().home_dir.join(".config/demo/config");
    let backup = backup_path(&destination);
    let rollback = managed_file_rollback_path(&destination);
    runtime.host().put_file(&destination, managed.to_vec());
    runtime.host().put_file(&backup, original.to_vec());
    save_matching_receipt_with_backup(&runtime, managed, Some(backup.clone()));
    runtime.host().fail_rename_after(&backup, &destination, 0);
    let ir = backup_remove_action_ir(&runtime, managed, original);
    let (plan, approval) = approved_remove_plan(&runtime, &ir);
    assert!(
        runtime
            .execute_app_managed_file_removal_approved(&plan, &approval, ir)
            .is_err()
    );
    assert!(runtime.host().read(&destination).is_err());
    assert_eq!(runtime.host().read(&backup).unwrap(), original);
    assert_eq!(runtime.host().read(&rollback).unwrap(), managed);

    let recovery_plan = runtime.plan_app_operation_recovery().unwrap();
    assert!(recovery_plan.steps.iter().any(|step| {
        step.action == PlanActionV1::Update
            && step
                .diagnostic_codes
                .contains(&"app_recovery_restore_backup_removal_managed_file".to_string())
    }));
    let recovery_approval = PlanApprovalV1::for_reviewed_plan(&recovery_plan).unwrap();
    runtime
        .recover_app_operation_approved(&recovery_approval)
        .unwrap();
    assert_eq!(runtime.host().read(&destination).unwrap(), managed);
    assert_eq!(runtime.host().read(&backup).unwrap(), original);
    assert!(runtime.host().read(&rollback).is_err());
}

#[test]
fn interruption_after_backup_restoration_recreates_pre_uninstall_state() {
    let runtime = runtime();
    let managed = b"managed";
    let original = b"user-original";
    let destination = runtime.context().home_dir.join(".config/demo/config");
    let backup = backup_path(&destination);
    let rollback = managed_file_rollback_path(&destination);
    runtime.host().put_file(&destination, managed.to_vec());
    runtime.host().put_file(&backup, original.to_vec());
    save_matching_receipt_with_backup(&runtime, managed, Some(backup.clone()));
    runtime.host().fail_write_after(
        runtime.context().shine_dir.join(APP_OPERATION_JOURNAL_FILE),
        1,
    );
    let ir = backup_remove_action_ir(&runtime, managed, original);
    let (plan, approval) = approved_remove_plan(&runtime, &ir);
    assert!(
        runtime
            .execute_app_managed_file_removal_approved(&plan, &approval, ir)
            .is_err()
    );
    assert_eq!(runtime.host().read(&destination).unwrap(), original);
    assert!(runtime.host().read(&backup).is_err());
    assert_eq!(runtime.host().read(&rollback).unwrap(), managed);

    let recovery_plan = runtime.plan_app_operation_recovery().unwrap();
    let recovery_approval = PlanApprovalV1::for_reviewed_plan(&recovery_plan).unwrap();
    runtime
        .recover_app_operation_approved(&recovery_approval)
        .unwrap();
    assert_eq!(runtime.host().read(&destination).unwrap(), managed);
    assert_eq!(runtime.host().read(&backup).unwrap(), original);
    assert!(runtime.host().read(&rollback).is_err());
}

#[test]
fn backup_removal_receipt_gap_restores_file_backup_and_receipt() {
    let runtime = runtime();
    let managed = b"managed";
    let original = b"user-original";
    let destination = runtime.context().home_dir.join(".config/demo/config");
    let backup = backup_path(&destination);
    let rollback = managed_file_rollback_path(&destination);
    runtime.host().put_file(&destination, managed.to_vec());
    runtime.host().put_file(&backup, original.to_vec());
    save_matching_receipt_with_backup(&runtime, managed, Some(backup.clone()));
    let ir = backup_remove_action_ir(&runtime, managed, original);
    let (plan, approval) = approved_remove_plan(&runtime, &ir);
    runtime
        .execute_app_managed_file_removal_approved(&plan, &approval, ir)
        .unwrap();
    remove_matching_receipt(&runtime);

    let recovery_plan = runtime.plan_app_operation_recovery().unwrap();
    assert!(recovery_plan.steps.iter().any(|step| {
        step.action == PlanActionV1::Update
            && step
                .diagnostic_codes
                .contains(&"app_recovery_restore_backup_removal_file_and_backup".to_string())
    }));
    let recovery_approval = PlanApprovalV1::for_reviewed_plan(&recovery_plan).unwrap();
    runtime
        .recover_app_operation_approved(&recovery_approval)
        .unwrap();
    assert_eq!(runtime.host().read(&destination).unwrap(), managed);
    assert_eq!(runtime.host().read(&backup).unwrap(), original);
    assert!(runtime.host().read(&rollback).is_err());
    let (manifest, _) =
        load_app_manifest_receipts(runtime.host(), &runtime.context().shine_dir)
            .unwrap();
    assert!(matching_previous_app_receipt(
        &manifest,
        &backup_remove_action_ir(&runtime, managed, original).actions[0]
    ));
}

#[test]
fn committed_backup_removal_recovery_keeps_user_file_and_cleans_rollback() {
    let runtime = runtime();
    let managed = b"managed";
    let original = b"user-original";
    let destination = runtime.context().home_dir.join(".config/demo/config");
    let backup = backup_path(&destination);
    let rollback = managed_file_rollback_path(&destination);
    runtime.host().put_file(&destination, managed.to_vec());
    runtime.host().put_file(&backup, original.to_vec());
    save_matching_receipt_with_backup(&runtime, managed, Some(backup.clone()));
    let ir = backup_remove_action_ir(&runtime, managed, original);
    let (plan, approval) = approved_remove_plan(&runtime, &ir);
    runtime
        .execute_app_managed_file_removal_approved(&plan, &approval, ir)
        .unwrap();
    remove_matching_receipt(&runtime);
    let (mut journal, _) =
        load_app_operation_journal(runtime.host(), &runtime.context().shine_dir)
            .unwrap()
            .unwrap();
    journal
        .mark_receipt_committed("action-remove-with-backup")
        .unwrap();
    save_app_operation_journal(runtime.host(), &runtime.context().shine_dir, &journal)
        .unwrap();

    let recovery_plan = runtime.plan_app_operation_recovery().unwrap();
    assert!(recovery_plan.steps.iter().any(|step| {
        step.action == PlanActionV1::Remove
            && step
                .diagnostic_codes
                .contains(&"app_recovery_remove_committed_backup_removal_rollback".to_string())
    }));
    let recovery_approval = PlanApprovalV1::for_reviewed_plan(&recovery_plan).unwrap();
    runtime
        .recover_app_operation_approved(&recovery_approval)
        .unwrap();
    assert_eq!(runtime.host().read(&destination).unwrap(), original);
    assert!(runtime.host().read(&backup).is_err());
    assert!(runtime.host().read(&rollback).is_err());
}

#[test]
fn backup_removal_recovery_blocks_changed_restored_user_file() {
    let runtime = runtime();
    let managed = b"managed";
    let original = b"user-original";
    let destination = runtime.context().home_dir.join(".config/demo/config");
    let backup = backup_path(&destination);
    runtime.host().put_file(&destination, managed.to_vec());
    runtime.host().put_file(&backup, original.to_vec());
    save_matching_receipt_with_backup(&runtime, managed, Some(backup));
    runtime.host().fail_write_after(
        runtime.context().shine_dir.join(APP_OPERATION_JOURNAL_FILE),
        1,
    );
    let ir = backup_remove_action_ir(&runtime, managed, original);
    let (plan, approval) = approved_remove_plan(&runtime, &ir);
    let _ = runtime
        .execute_app_managed_file_removal_approved(&plan, &approval, ir);
    runtime
        .host()
        .put_file(&destination, b"user-changed-after-restore".to_vec());

    let recovery_plan = runtime.plan_app_operation_recovery().unwrap();
    assert!(!recovery_plan.is_ready());
    assert!(recovery_plan.steps.iter().any(|step| {
        step.action == PlanActionV1::Blocked
            && step
                .diagnostic_codes
                .contains(&"app_recovery_backup_removal_state_changed".to_string())
    }));
    assert_eq!(
        runtime.host().read(&destination).unwrap(),
        b"user-changed-after-restore"
    );
}

#[test]
fn backup_removal_recovery_blocks_a_restored_user_file_mode_change() {
    let runtime = runtime();
    let managed = b"managed";
    let original = b"user-original";
    let destination = runtime.context().home_dir.join(".config/demo/config");
    let backup = backup_path(&destination);
    runtime.host().put_file(&destination, managed.to_vec());
    runtime.host().put_file(&backup, original.to_vec());
    save_matching_receipt_with_backup(&runtime, managed, Some(backup));
    runtime.host().fail_write_after(
        runtime.context().shine_dir.join(APP_OPERATION_JOURNAL_FILE),
        1,
    );
    let ir = backup_remove_action_ir(&runtime, managed, original);
    let (plan, approval) = approved_remove_plan(&runtime, &ir);
    let _ = runtime
        .execute_app_managed_file_removal_approved(&plan, &approval, ir);
    runtime
        .host()
        .set_mode(&destination, 0o100600)
        .unwrap();

    let recovery_plan = runtime.plan_app_operation_recovery().unwrap();
    assert!(!recovery_plan.is_ready());
    assert!(recovery_plan.steps.iter().any(|step| {
        step.action == PlanActionV1::Blocked
            && step
                .diagnostic_codes
                .contains(&"app_recovery_backup_removal_state_changed".to_string())
    }));
    assert_eq!(runtime.host().read(&destination).unwrap(), original);
}

#[test]
fn managed_removal_recovery_blocks_changed_rollback_material() {
    let runtime = runtime();
    let original = b"previous-managed";
    let destination = runtime.context().home_dir.join(".config/demo/config");
    let rollback = managed_file_rollback_path(&destination);
    runtime.host().put_file(&destination, original.to_vec());
    save_matching_receipt(&runtime, original);
    let ir = remove_action_ir(&runtime, original);
    let (plan, approval) = approved_remove_plan(&runtime, &ir);
    runtime.host().fail_write_after(
        runtime.context().shine_dir.join(APP_OPERATION_JOURNAL_FILE),
        1,
    );
    let _ = runtime
        .execute_app_managed_file_removal_approved(&plan, &approval, ir);
    runtime.host().put_file(&rollback, b"user-change".to_vec());

    let recovery_plan = runtime.plan_app_operation_recovery().unwrap();
    assert!(!recovery_plan.is_ready());
    assert!(recovery_plan.steps.iter().any(|step| {
        step.action == PlanActionV1::Blocked
            && step
                .diagnostic_codes
                .contains(&"app_recovery_removal_state_changed".to_string())
    }));
    assert!(runtime.host().read(&destination).is_err());
    assert_eq!(
        runtime.host().read(&rollback).unwrap(),
        b"user-change"
    );
}

#[test]
fn json_relocation_recovery_preserves_unrelated_values_but_blocks_managed_changes() {
    let original = br#"{"proxy":"previous","theme":"light"}"#;
    let previous =
        RecoveryFileObservation::Regular(br#"{"theme":"dark","zoom":2}"#.to_vec(), None);
    let rollback = RecoveryFileObservation::Regular(original.to_vec(), None);
    let desired =
        RecoveryFileObservation::Regular(br#"{"proxy":"next","font":"large"}"#.to_vec(), None);
    let previous_keys = vec!["proxy".to_string()];
    let desired_keys = vec!["proxy".to_string()];
    let desired_hash = managed_json_hash(br#"{"proxy":"next"}"#, &desired_keys).unwrap();
    assert_eq!(
        assess_json_relocation_recovery(
            &previous,
            &rollback,
            &desired,
            true,
            Some(hash_content(original)),
            None,
            &previous_keys,
            desired_hash,
            &desired_keys,
            false,
        )
        .unwrap(),
        JsonRelocationRecoveryAssessment::Uncommitted {
            previous: Some(JsonRecoveryAssessment::RestoreKeys),
            desired: JsonRecoveryAssessment::RemoveCreatedKeys,
        }
    );

    let changed_desired = RecoveryFileObservation::Regular(
        br#"{"proxy":"user-changed","font":"large"}"#.to_vec(),
        None,
    );
    assert_eq!(
        assess_json_relocation_recovery(
            &previous,
            &rollback,
            &changed_desired,
            true,
            Some(hash_content(original)),
            None,
            &previous_keys,
            desired_hash,
            &desired_keys,
            false,
        )
        .unwrap(),
        JsonRelocationRecoveryAssessment::Blocked
    );
}

fn moved_path(runtime: &Runtime) -> PathBuf {
    runtime.context().home_dir.join(".demo/config")
}

fn file_relocation(runtime: &Runtime, previous: &[u8], content: &[u8]) -> DeclarativeActionV1 {
    DeclarativeActionV1::relocate_managed_file(
        "action-relocate",
        "app/demo",
        "config",
        ManagedFileRelocationSpecV1 {
            previous_destination: config_path(runtime),
            previous_backup: None,
            desired_destination: text(&moved_path(runtime)).to_string(),
            previous_present: true,
            previous_mode: Some(0o100644),
            previous_hash: hash_content(previous),
            desired_hash: hash_content(content),
            previous_uses_env: false,
            desired_uses_env: false,
            previous_requires_admin: false,
            desired_requires_admin: false,
        },
    )
}

fn key_relocation(runtime: &Runtime, previous: &[u8], content: &[u8]) -> DeclarativeActionV1 {
    DeclarativeActionV1::relocate_managed_json(
        "action-relocate",
        "app/demo",
        "config",
        ManagedJsonRelocationSpecV1 {
            previous_destination: config_path(runtime),
            desired_destination: text(&moved_path(runtime)).to_string(),
            previous_present: true,
            previous_mode: Some(0o100644),
            previous_original_hash: Some(hash_content(previous)),
            previous_receipt_hash: installed_json_hash(previous, &json_keys()).unwrap().unwrap(),
            previous_managed_keys: json_keys(),
            desired_managed_hash: managed_json_hash(content, &json_keys()).unwrap(),
            desired_managed_keys: json_keys(),
            previous_uses_env: false,
            desired_uses_env: false,
        },
    )
}

fn approved_relocation(
    runtime: &Runtime,
    action: DeclarativeActionV1,
) -> (PlanV1, PlanApprovalV1, ActionIrV1) {
    let ir = ActionIrV1::new("operation-relocate", vec![action]);
    let step = PlanStepV1::new("app/demo", Some("config"), PlanActionV1::Update)
        .with_diagnostic_code("app_destination_relocated");
    let state = "test-relocation-state";
    let (plan, approval) = approved_plan(runtime, &ir, PlanOperationV1::Upgrade, state, step);
    (plan, approval, ir)
}

fn move_receipt(runtime: &Runtime, content_hash: u64) {
    let shine_dir = &runtime.context().shine_dir;
    let (mut manifest, _) = load_app_manifest_receipts(runtime.host(), shine_dir).unwrap();
    manifest.entries[0].destination = text(&moved_path(runtime)).to_string();
    manifest.entries[0].content_hash = content_hash;
    save_manifest(runtime, &manifest).unwrap();
}

fn recovered(runtime: &Runtime) {
    let plan = runtime.plan_app_operation_recovery().unwrap();
    let approval = PlanApprovalV1::for_reviewed_plan(&plan).unwrap();
    runtime.recover_app_operation_approved(&approval).unwrap();
}

#[test]
fn a_relocated_file_is_kept_once_its_receipt_moved() {
    let runtime = runtime();
    let previous = b"previous-managed";
    let content = b"next-managed";
    let old = PathBuf::from(config_path(&runtime));
    runtime.host().put_file(&old, previous.to_vec());
    save_matching_receipt(&runtime, previous);
    let action = file_relocation(&runtime, previous, content);
    let (plan, approval, ir) = approved_relocation(&runtime, action);
    let kind = ExecutionKind::FileRelocation;
    let execution = runtime.execute(kind, &plan, &approval, ir, content).unwrap();
    assert_eq!(runtime.host().read(managed_file_rollback_path(&old)).unwrap(), previous);
    move_receipt(&runtime, hash_content(content));
    runtime.commit_app_managed_file_operation(&execution).unwrap();
    assert!(runtime.host().read(&old).is_err());
    assert!(runtime.host().read(managed_file_rollback_path(&old)).is_err());
    assert_eq!(runtime.host().read(moved_path(&runtime)).unwrap(), content);
}

#[test]
fn an_interrupted_relocation_is_undone_from_every_point() {
    let previous = b"previous-managed";
    let content = b"next-managed";
    for point in 0..3 {
        let runtime = runtime();
        let old = PathBuf::from(config_path(&runtime));
        let rollback = managed_file_rollback_path(&old);
        runtime.host().put_file(&old, previous.to_vec());
        save_matching_receipt(&runtime, previous);
        match point {
            0 => runtime.host().fail_rename_after(&old, &rollback, 0),
            1 => runtime.host().fail_write_after(moved_path(&runtime), 0),
            _ => runtime.host().fail_write_after(
                runtime.context().shine_dir.join(APP_OPERATION_JOURNAL_FILE),
                1,
            ),
        }
        let action = file_relocation(&runtime, previous, content);
        let (plan, approval, ir) = approved_relocation(&runtime, action);
        let kind = ExecutionKind::FileRelocation;
        assert!(runtime.execute(kind, &plan, &approval, ir, content).is_err());
        recovered(&runtime);
        assert_eq!(runtime.host().read(&old).unwrap(), previous);
        assert!(runtime.host().read(&rollback).is_err());
        assert!(runtime.host().read(moved_path(&runtime)).is_err());
    }
}

#[test]
fn relocated_keys_leave_the_other_members_behind() {
    let runtime = runtime();
    let previous: &[u8] =
        br#"{"proxy":"previous","containersProxy":"previous","theme":"light"}"#;
    let content: &[u8] = br#"{"proxy":"next","containersProxy":"next"}"#;
    let old = PathBuf::from(config_path(&runtime));
    runtime.host().put_file(&old, previous.to_vec());
    save_json_receipt(&runtime, previous);
    let action = key_relocation(&runtime, previous, content);
    let (plan, approval, ir) = approved_relocation(&runtime, action);
    let kind = ExecutionKind::JsonRelocation;
    let execution = runtime.execute(kind, &plan, &approval, ir, content).unwrap();
    move_receipt(&runtime, managed_json_hash(content, &json_keys()).unwrap());
    runtime.commit_app_managed_file_operation(&execution).unwrap();
    let left = parse_json_object(&runtime.host().read(&old).unwrap(), "left").unwrap();
    assert_eq!(left.len(), 1);
    assert_eq!(left["theme"], "light");
    let moved = runtime.host().read(moved_path(&runtime)).unwrap();
    assert_eq!(parse_json_object(&moved, "moved").unwrap()["proxy"], "next");
    assert!(runtime.host().read(managed_file_rollback_path(&old)).is_err());
}

#[test]
fn an_interrupted_relocation_of_keys_is_undone_from_every_point() {
    let previous: &[u8] =
        br#"{"proxy":"previous","containersProxy":"previous","theme":"light"}"#;
    let content: &[u8] = br#"{"proxy":"next","containersProxy":"next"}"#;
    for point in 0..4 {
        let runtime = runtime();
        let old = PathBuf::from(config_path(&runtime));
        let rollback = managed_file_rollback_path(&old);
        runtime.host().put_file(&old, previous.to_vec());
        save_json_receipt(&runtime, previous);
        match point {
            0 => runtime.host().fail_rename_after(&old, &rollback, 0),
            1 => runtime.host().fail_write_after(&old, 0),
            2 => runtime.host().fail_write_after(moved_path(&runtime), 0),
            _ => runtime.host().fail_write_after(
                runtime.context().shine_dir.join(APP_OPERATION_JOURNAL_FILE),
                1,
            ),
        }
        let action = key_relocation(&runtime, previous, content);
        let (plan, approval, ir) = approved_relocation(&runtime, action);
        let kind = ExecutionKind::JsonRelocation;
        assert!(runtime.execute(kind, &plan, &approval, ir, content).is_err());
        recovered(&runtime);
        let found = runtime.host().read(&old).unwrap();
        assert_eq!(
            parse_json_object(&found, "found").unwrap(),
            parse_json_object(previous, "previous").unwrap()
        );
        assert!(runtime.host().read(&rollback).is_err());
        assert!(runtime.host().read(moved_path(&runtime)).is_err());
    }
}

#[test]
fn an_operation_is_refused_where_its_approval_or_its_content_is_another() {
    let runtime = runtime();
    let content = b"managed-content";
    let ir = action_ir(&runtime, content);
    let (plan, approval) = approved_install_plan(&runtime, &ir);
    let other = update_action_ir(&runtime, b"a", b"b");
    let (_, wrong) = approved_update_plan(&runtime, &other);
    let kind = ExecutionKind::FileCreation;
    assert!(runtime.execute(kind, &plan, &wrong, ir.clone(), content).is_err());
    assert!(runtime.execute(kind, &plan, &approval, ir.clone(), b"else").is_err());
    assert!(runtime
        .execute(ExecutionKind::FileRemoval, &plan, &approval, ir.clone(), content)
        .is_err());
    runtime.host().put_file(config_path(&runtime), b"mine".to_vec());
    assert!(runtime.execute(kind, &plan, &approval, ir, content).is_err());
    assert_eq!(runtime.host().read(config_path(&runtime)).unwrap(), b"mine");
    let journal = runtime.context().shine_dir.join(APP_OPERATION_JOURNAL_FILE);
    assert!(runtime.host().read(journal).is_err());
}

#[test]
fn an_approval_that_no_longer_holds_changes_nothing() {
    let runtime = runtime();
    let content = b"managed-content";
    let destination = runtime.context().home_dir.join(".config/demo/config");
    let journal = runtime.context().shine_dir.join(APP_OPERATION_JOURNAL_FILE);
    let ir = action_ir(&runtime, content);
    let (plan, approval) = approved_install_plan(&runtime, &ir);
    runtime.host().fail_write_after(&journal, 1);
    assert!(runtime
        .execute_app_managed_file_creation_approved(&plan, &approval, ir, content)
        .is_err());
    let refused = runtime.recover_app_operation_approved(&approval).unwrap_err();
    assert!(refused.starts_with("Approval"), "{refused}");
    assert_eq!(runtime.host().read(&destination).unwrap(), content);
    assert!(runtime.host().read(&journal).is_ok());

    let reviewed = runtime.plan_app_operation_recovery().unwrap();
    let approved = PlanApprovalV1::for_reviewed_plan(&reviewed).unwrap();
    let mut run = runtime.start_recovery(&approved).unwrap();
    assert_eq!(run.next(), RecoveryDemand::Lock);
    run.lock_acquired();
    assert_eq!(run.next(), RecoveryDemand::PlanAgain);
    runtime.host().put_file(&destination, b"changed meanwhile".to_vec());
    assert!(runtime.plan_again(&mut run).is_err());
    assert_eq!(runtime.host().read(&destination).unwrap(), b"changed meanwhile");
    assert!(runtime.host().read(&journal).is_ok());
}

#[test]
fn recovery_removes_the_journal_last() {
    let runtime = runtime();
    let content = b"managed-content";
    let journal = runtime.context().shine_dir.join(APP_OPERATION_JOURNAL_FILE);
    let ir = action_ir(&runtime, content);
    let (plan, approval) = approved_install_plan(&runtime, &ir);
    runtime.host().fail_write_after(&journal, 1);
    assert!(runtime
        .execute_app_managed_file_creation_approved(&plan, &approval, ir, content)
        .is_err());
    let reviewed = runtime.plan_app_operation_recovery().unwrap();
    let approved = PlanApprovalV1::for_reviewed_plan(&reviewed).unwrap();
    let mut run = runtime.start_recovery(&approved).unwrap();
    run.lock_acquired();
    runtime.plan_again(&mut run).unwrap();
    assert_eq!(run.next(), RecoveryDemand::Observe { index: 0 });
    let kind = run.action().kind.clone();
    run.observed(&runtime.host().observe_roles(&kind, &roles_to_observe(&kind))).unwrap();
    assert_eq!(run.next(), RecoveryDemand::Take);
    runtime.host().take(run.step()).unwrap();
    run.step_taken();
    assert_eq!(run.next(), RecoveryDemand::RemoveJournal);
    run.journal_removed();
    assert_eq!(run.next(), RecoveryDemand::Finish);
    assert_eq!(run.report().rolled_back_actions, vec!["action-1"]);
}

#[test]
fn recovery_finds_every_path_as_it_was_before_the_operation() {
    for (failing, after) in [("destination", 0), ("journal", 1)] {
        let runtime = runtime();
        let destination = runtime.context().home_dir.join(".config/demo/config");
        let journal = runtime.context().shine_dir.join(APP_OPERATION_JOURNAL_FILE);
        runtime.host().put_file(&destination, b"b".to_vec());
        let ir = backup_action_ir(&runtime, b"b", b"managed");
        let (plan, approval) = approved_install_plan(&runtime, &ir);
        let failing = if failing == "destination" { &destination } else { &journal };
        runtime.host().fail_write_after(failing, after);
        assert!(runtime
            .execute_app_managed_file_creation_approved(&plan, &approval, ir, b"managed")
            .is_err());
        let reviewed = runtime.plan_app_operation_recovery().unwrap();
        let approved = PlanApprovalV1::for_reviewed_plan(&reviewed).unwrap();
        let report = runtime.recover_app_operation_approved(&approved).unwrap();
        assert_eq!(report.rolled_back_actions, vec!["action-backup"]);
        assert_eq!(runtime.host().read(&destination).unwrap(), b"b");
        assert!(runtime.host().read(&backup_path(&destination)).is_err());
        assert!(runtime.host().read(&journal).is_err());
    }
}

#[test]
fn recovery_of_merged_keys_with_a_receipt_clears_exact_rollback_material_only() {
    for changed in [false, true] {
        let runtime = runtime();
        let previous = br#"{"proxy":{"mode":"old"},"containersProxy":{"mode":"old"}}"#;
        let next = br#"{"proxy":{"mode":"new"},"containersProxy":{"mode":"new"}}"#;
        let destination = runtime.context().home_dir.join(".config/demo/config");
        let rollback = managed_file_rollback_path(&destination);
        runtime.host().put_file(&destination, previous.to_vec());
        save_json_receipt(&runtime, previous);
        let hash = managed_json_hash(previous, &json_keys()).unwrap();
        let ir = json_merge_action_ir(&runtime, Some(previous), Some(hash), next);
        let (plan, approval) = approved_update_plan(&runtime, &ir);
        runtime
            .execute_app_managed_json_merge_approved(&plan, &approval, ir, next)
            .unwrap();
        save_json_receipt(&runtime, next);
        let merged = runtime.host().read(&destination).unwrap();
        if changed {
            runtime.host().put_file(&rollback, b"{}".to_vec());
        }
        let reviewed = runtime.plan_app_operation_recovery().unwrap();
        assert_eq!(reviewed.steps.iter().any(|step| step.action == PlanActionV1::Blocked), changed);
        if let Ok(approved) = PlanApprovalV1::for_reviewed_plan(&reviewed) {
            let recovered = runtime.recover_app_operation_approved(&approved);
            assert_eq!(recovered.is_err(), changed);
        }
        assert_eq!(runtime.host().read(&destination).unwrap(), merged);
        assert_eq!(runtime.host().read(&rollback).is_ok(), changed);
    }
}

fn locks_taken(runtime: &Runtime) -> usize {
    runtime
        .host()
        .operations()
        .iter()
        .filter(|operation| matches!(operation, HostOperation::AcquirePrivilegedOperation))
        .count()
}

#[test]
fn an_operation_without_privilege_gives_the_lock_back_before_its_commit() {
    let runtime = runtime();
    let content = b"managed-content";
    let ir = action_ir(&runtime, content);
    let (plan, approval) = approved_install_plan(&runtime, &ir);
    let execution = runtime
        .execute_app_managed_file_creation_approved(&plan, &approval, ir, content)
        .unwrap();
    assert!(execution.privileged_operation.is_none());
    assert_eq!(locks_taken(&runtime), 1);
    let commit = CommitRun::start(&execution.handed);
    assert_eq!(commit.next(), CommitDemand::Lock);
    save_matching_receipt(&runtime, content);
    runtime.commit_app_managed_file_operation(&execution).unwrap();
    assert_eq!(locks_taken(&runtime), 2);
    let held = AppOperationExecutionV1 {
        holds_privileged_operation: true,
        ..execution.handed.clone()
    };
    assert_eq!(CommitRun::start(&held).next(), CommitDemand::Open);
}

#[test]
fn an_operation_that_is_not_approved_takes_no_lock() {
    let runtime = runtime();
    let ir = action_ir(&runtime, b"managed-content");
    let (plan, approval) = approved_install_plan(&runtime, &ir);
    assert!(runtime
        .execute_app_managed_file_creation_approved(&plan, &approval, ir, b"another content")
        .is_err());
    assert_eq!(locks_taken(&runtime), 0);
}

#[test]
fn a_journal_or_a_receipt_is_found_under_the_lock() {
    let runtime = runtime();
    let content = b"managed-content";
    let ir = action_ir(&runtime, content);
    let (plan, approval) = approved_install_plan(&runtime, &ir);
    let mut run = ExecutionRun::start(
        ExecutionKind::FileCreation,
        &runtime.context,
        &plan,
        approval,
        ir,
        content.to_vec(),
    )
    .unwrap();
    assert_eq!(run.next(), ExecutionDemand::Lock);
    run.lock_acquired();
    assert_eq!(run.next(), ExecutionDemand::Open);
    assert_eq!(run.opened(true, &AppManifest::default()), Err(ExecutionFault::JournalPresent));
    save_matching_receipt(&runtime, content);
    let (owned, _) =
        load_app_manifest_receipts(runtime.host(), &runtime.context().shine_dir).unwrap();
    assert_eq!(run.opened(false, &owned), Err(ExecutionFault::Owned));
    assert_eq!(run.next(), ExecutionDemand::Open);
    assert_eq!(run.opened(false, &AppManifest::default()), Ok(()));
    assert!(matches!(run.next(), ExecutionDemand::Inspect { .. }));
}
