//! How the content of one App file is put in place and taken away.

use vstd::prelude::*;
use vstd::string::*;

use crate::app_types::AppFile;
use crate::content::{content_hash, copy_bytes, hash_content};
use crate::json::{
    current_json_hash, desired_json_hash, installed_json_hash, managed_json_hash,
    merge_managed_json_bytes, merge_result, remove_managed_json_bytes, removal_result, JsonFault,
};
use crate::manifest::{backup_path, backup_suffix, AppEntry, AppInstallStrategy};
use crate::recovery_run::{host_step_views, HostStep, HostStepView};
use crate::text::texts;

verus! {

/// What came of an install.
#[derive(Clone, Debug)]
pub enum InstallOutcome {
    Installed { hash: u64 },
    BackedUpAndInstalled { backup: String, hash: u64 },
    AlreadyManaged,
    DryRun,
}

/// What came of an uninstall.
#[derive(Clone, Debug)]
pub enum UninstallOutcome {
    Removed,
    ForceRemoved,
    RestoredBackup { backup: String },
    ForceRestoredBackup { backup: String },
    NotFound,
    UserModified,
    DryRun,
}

/// What an install of a whole file does.
#[derive(Clone, Copy, Debug, PartialEq, Eq, Structural)]
pub enum CopyInstall {
    Preview,
    AlreadyManaged,
    Write { back_up: bool },
}

/// Whether the content at the destination has to be read before a whole file is
/// installed.
pub fn copy_install_reads(exists: bool, is_managed: bool, force: bool) -> (reads: bool)
    ensures
        reads == (exists && is_managed && !force),
{
    exists && is_managed && !force
}

/// What installing a whole file does: nothing in a preview or where a managed
/// file already has the content; otherwise it writes, and what stands there and is
/// not managed is backed up first.
pub open spec fn copy_install(
    content: Seq<u8>,
    is_managed: bool,
    dry_run: bool,
    force: bool,
    exists: bool,
    current: Option<Seq<u8>>,
) -> CopyInstall {
    if dry_run {
        CopyInstall::Preview
    } else if exists && is_managed && !force && current is Some && content_hash(current->0)
        == content_hash(content) {
        CopyInstall::AlreadyManaged
    } else {
        CopyInstall::Write { back_up: exists && !is_managed }
    }
}

/// What installing the whole file does.
pub fn decide_copy_install(
    content: &[u8],
    is_managed: bool,
    dry_run: bool,
    force: bool,
    exists: bool,
    current: Option<&[u8]>,
) -> (decision: CopyInstall)
    ensures
        decision == copy_install(
            content@,
            is_managed,
            dry_run,
            force,
            exists,
            match current {
                Some(current) => Some(current@),
                None => None,
            },
        ),
{
    if dry_run {
        return CopyInstall::Preview;
    }
    if exists && is_managed && !force {
        if let Some(current) = current {
            if hash_content(current) == hash_content(content) {
                return CopyInstall::AlreadyManaged;
            }
        }
    }
    CopyInstall::Write { back_up: exists && !is_managed }
}

/// The host steps of an install of a whole file.
pub open spec fn copy_install_step_views(
    decision: CopyInstall,
    destination: Seq<char>,
    content: Seq<u8>,
    privileged: bool,
) -> Seq<HostStepView> {
    let write = HostStepView::WriteFile { path: destination, content, privileged };
    match decision {
        CopyInstall::Write { back_up } => if back_up {
            seq![
                HostStepView::MoveFile {
                    from: destination,
                    to: destination + backup_suffix(),
                    privileged,
                },
                write,
            ]
        } else {
            seq![write]
        },
        _ => Seq::empty(),
    }
}

/// The host steps of the install.
pub fn copy_install_steps(
    decision: CopyInstall,
    destination: &str,
    content: &[u8],
    privileged: bool,
) -> (steps: Vec<HostStep>)
    ensures
        host_step_views(steps@) == copy_install_step_views(
            decision,
            destination@,
            content@,
            privileged,
        ),
{
    let mut steps: Vec<HostStep> = Vec::new();
    if let CopyInstall::Write { back_up } = decision {
        if back_up {
            steps.push(
                HostStep::MoveFile {
                    from: destination.to_owned(),
                    to: backup_path(destination),
                    privileged,
                },
            );
        }
        steps.push(
            HostStep::WriteFile {
                path: destination.to_owned(),
                content: copy_bytes(content),
                privileged,
            },
        );
    }
    proof {
        assert(host_step_views(steps@) =~= copy_install_step_views(
            decision,
            destination@,
            content@,
            privileged,
        ));
    }
    steps
}

/// What came of an install of a whole file whose steps were taken.
pub fn copy_install_outcome(decision: CopyInstall, destination: &str, content: &[u8]) -> (outcome:
    InstallOutcome)
    ensures
        match decision {
            CopyInstall::Preview => outcome is DryRun,
            CopyInstall::AlreadyManaged => outcome is AlreadyManaged,
            CopyInstall::Write { back_up } => if back_up {
                match outcome {
                    InstallOutcome::BackedUpAndInstalled { backup, hash } => backup@
                        == destination@ + backup_suffix() && hash == content_hash(content@),
                    _ => false,
                }
            } else {
                outcome == (InstallOutcome::Installed { hash: content_hash(content@) })
            },
        },
{
    match decision {
        CopyInstall::Preview => InstallOutcome::DryRun,
        CopyInstall::AlreadyManaged => InstallOutcome::AlreadyManaged,
        CopyInstall::Write { back_up } => {
            let hash = hash_content(content);
            if back_up {
                InstallOutcome::BackedUpAndInstalled { backup: backup_path(destination), hash }
            } else {
                InstallOutcome::Installed { hash }
            }
        },
    }
}

/// What an uninstall of a whole file does.
#[derive(Clone, Copy, Debug, PartialEq, Eq, Structural)]
pub enum CopyUninstall {
    Preview,
    NotFound,
    UserModified,
    Remove { forced: bool },
}

/// What uninstalling a whole file does: what a user changed is kept, unless it is
/// forced.
pub open spec fn copy_uninstall(
    receipt_hash: u64,
    dry_run: bool,
    force: bool,
    current: Option<Seq<u8>>,
) -> CopyUninstall {
    if dry_run {
        CopyUninstall::Preview
    } else {
        match current {
            None => CopyUninstall::NotFound,
            Some(current) => {
                let modified = content_hash(current) != receipt_hash;
                if modified && !force {
                    CopyUninstall::UserModified
                } else {
                    CopyUninstall::Remove { forced: modified }
                }
            },
        }
    }
}

/// What uninstalling the whole file does.
pub fn decide_copy_uninstall(
    receipt_hash: u64,
    dry_run: bool,
    force: bool,
    current: Option<&[u8]>,
) -> (decision: CopyUninstall)
    ensures
        decision == copy_uninstall(
            receipt_hash,
            dry_run,
            force,
            match current {
                Some(current) => Some(current@),
                None => None,
            },
        ),
{
    if dry_run {
        return CopyUninstall::Preview;
    }
    match current {
        None => CopyUninstall::NotFound,
        Some(current) => {
            let modified = hash_content(current) != receipt_hash;
            if modified && !force {
                CopyUninstall::UserModified
            } else {
                CopyUninstall::Remove { forced: modified }
            }
        },
    }
}

/// What came of an uninstall of a whole file whose steps were taken.
pub fn copy_uninstall_outcome(
    decision: CopyUninstall,
    entry: &AppEntry,
    backup_present: bool,
) -> (outcome: UninstallOutcome)
    ensures
        match decision {
            CopyUninstall::Preview => outcome is DryRun,
            CopyUninstall::NotFound => outcome is NotFound,
            CopyUninstall::UserModified => outcome is UserModified,
            CopyUninstall::Remove { forced } => if backup_present && entry.backup is Some {
                match outcome {
                    UninstallOutcome::ForceRestoredBackup { backup } => forced && backup@
                        == entry.backup->0@,
                    UninstallOutcome::RestoredBackup { backup } => !forced && backup@
                        == entry.backup->0@,
                    _ => false,
                }
            } else if forced {
                outcome is ForceRemoved
            } else {
                outcome is Removed
            },
        },
{
    match decision {
        CopyUninstall::Preview => UninstallOutcome::DryRun,
        CopyUninstall::NotFound => UninstallOutcome::NotFound,
        CopyUninstall::UserModified => UninstallOutcome::UserModified,
        CopyUninstall::Remove { forced } => {
            if let Some(backup) = &entry.backup {
                if backup_present {
                    return if forced {
                        UninstallOutcome::ForceRestoredBackup { backup: backup.clone() }
                    } else {
                        UninstallOutcome::RestoredBackup { backup: backup.clone() }
                    };
                }
            }
            if forced {
                UninstallOutcome::ForceRemoved
            } else {
                UninstallOutcome::Removed
            }
        },
    }
}

/// What an install of managed keys does.
#[derive(Clone, Debug)]
pub enum JsonInstall {
    Preview,
    AlreadyManaged,
    Write { content: Vec<u8>, hash: u64 },
}

/// What an install of managed keys does, by its values.
pub ghost enum JsonInstallView {
    Preview,
    AlreadyManaged,
    Write { content: Seq<u8>, hash: u64 },
}

impl View for JsonInstall {
    type V = JsonInstallView;

    open spec fn view(&self) -> JsonInstallView {
        match *self {
            JsonInstall::Preview => JsonInstallView::Preview,
            JsonInstall::AlreadyManaged => JsonInstallView::AlreadyManaged,
            JsonInstall::Write { content, hash } => JsonInstallView::Write {
                content: content@,
                hash,
            },
        }
    }
}

/// What installing managed keys does: nothing where they already stand as the
/// source has them; otherwise the object is written with them put in.
pub open spec fn json_install(
    source: Seq<u8>,
    keys: Seq<Seq<char>>,
    dry_run: bool,
    existing: Option<Seq<u8>>,
) -> Result<JsonInstallView, JsonFault> {
    if dry_run {
        Ok(JsonInstallView::Preview)
    } else {
        match desired_json_hash(source, keys) {
            Err(fault) => Err(fault),
            Ok(hash) => {
                let current = match existing {
                    Some(existing) => current_json_hash(existing, keys),
                    None => Ok(None),
                };
                match current {
                    Err(fault) => Err(fault),
                    Ok(current) => if existing is Some && current == Some(hash) {
                        Ok(JsonInstallView::AlreadyManaged)
                    } else {
                        match merge_result(existing, source, keys) {
                            Err(fault) => Err(fault),
                            Ok(content) => Ok(JsonInstallView::Write { content, hash }),
                        }
                    },
                }
            },
        }
    }
}

/// What installing the managed keys does.
pub fn decide_json_install(
    source: &[u8],
    keys: &Vec<String>,
    dry_run: bool,
    existing: Option<&[u8]>,
) -> (result: Result<JsonInstall, JsonFault>)
    ensures
        match json_install(
            source@,
            texts(keys@),
            dry_run,
            match existing {
                Some(existing) => Some(existing@),
                None => None,
            },
        ) {
            Ok(view) => result is Ok && result->Ok_0@ == view,
            Err(fault) => result is Err && result->Err_0 == fault,
        },
{
    if dry_run {
        return Ok(JsonInstall::Preview);
    }
    let hash = match managed_json_hash(source, keys.as_slice()) {
        Ok(hash) => hash,
        Err(fault) => return Err(fault),
    };
    if let Some(existing) = existing {
        match installed_json_hash(existing, keys.as_slice()) {
            Ok(current) => {
                if current == Some(hash) {
                    return Ok(JsonInstall::AlreadyManaged);
                }
            },
            Err(fault) => return Err(fault),
        }
    }
    match merge_managed_json_bytes(existing, source, keys.as_slice()) {
        Ok(content) => Ok(JsonInstall::Write { content, hash }),
        Err(fault) => Err(fault),
    }
}

/// What an uninstall of managed keys does.
#[derive(Clone, Debug)]
pub enum JsonUninstall {
    Preview,
    NotFound,
    UserModified,
    Write { content: Vec<u8>, forced: bool },
}

/// What an uninstall of managed keys does, by its values.
pub ghost enum JsonUninstallView {
    Preview,
    NotFound,
    UserModified,
    Write { content: Seq<u8>, forced: bool },
}

impl View for JsonUninstall {
    type V = JsonUninstallView;

    open spec fn view(&self) -> JsonUninstallView {
        match *self {
            JsonUninstall::Preview => JsonUninstallView::Preview,
            JsonUninstall::NotFound => JsonUninstallView::NotFound,
            JsonUninstall::UserModified => JsonUninstallView::UserModified,
            JsonUninstall::Write { content, forced } => JsonUninstallView::Write {
                content: content@,
                forced,
            },
        }
    }
}

/// What uninstalling managed keys does: keys that a user changed are kept, unless
/// it is forced; otherwise the object is written without them.
pub open spec fn json_uninstall(
    receipt_hash: u64,
    keys: Seq<Seq<char>>,
    dry_run: bool,
    force: bool,
    existing: Option<Seq<u8>>,
) -> Result<JsonUninstallView, JsonFault> {
    if dry_run {
        Ok(JsonUninstallView::Preview)
    } else {
        match existing {
            None => Ok(JsonUninstallView::NotFound),
            Some(existing) => match current_json_hash(existing, keys) {
                Err(fault) => Err(fault),
                Ok(None) => Ok(JsonUninstallView::NotFound),
                Ok(Some(current)) => if current != receipt_hash && !force {
                    Ok(JsonUninstallView::UserModified)
                } else {
                    match removal_result(existing, keys) {
                        Err(fault) => Err(fault),
                        Ok(content) => Ok(
                            JsonUninstallView::Write { content, forced: current != receipt_hash },
                        ),
                    }
                },
            },
        }
    }
}

/// What uninstalling the managed keys does.
pub fn decide_json_uninstall(
    receipt_hash: u64,
    keys: &Vec<String>,
    dry_run: bool,
    force: bool,
    existing: Option<&[u8]>,
) -> (result: Result<JsonUninstall, JsonFault>)
    ensures
        match json_uninstall(
            receipt_hash,
            texts(keys@),
            dry_run,
            force,
            match existing {
                Some(existing) => Some(existing@),
                None => None,
            },
        ) {
            Ok(view) => result is Ok && result->Ok_0@ == view,
            Err(fault) => result is Err && result->Err_0 == fault,
        },
{
    if dry_run {
        return Ok(JsonUninstall::Preview);
    }
    let existing = match existing {
        Some(existing) => existing,
        None => return Ok(JsonUninstall::NotFound),
    };
    let current = match installed_json_hash(existing, keys.as_slice()) {
        Ok(Some(current)) => current,
        Ok(None) => return Ok(JsonUninstall::NotFound),
        Err(fault) => return Err(fault),
    };
    let forced = current != receipt_hash;
    if forced && !force {
        return Ok(JsonUninstall::UserModified);
    }
    match remove_managed_json_bytes(existing, keys.as_slice()) {
        Ok(content) => Ok(JsonUninstall::Write { content, forced }),
        Err(fault) => Err(fault),
    }
}

/// The identity that a file's content would have once installed.
pub open spec fn desired_hash_of(keys: Option<Seq<Seq<char>>>, content: Seq<u8>) -> Result<
    u64,
    JsonFault,
> {
    match keys {
        None => Ok(content_hash(content)),
        Some(keys) => desired_json_hash(content, keys),
    }
}

/// The identity of what is installed; none where none of the managed keys is
/// there.
pub open spec fn installed_hash_of(keys: Option<Seq<Seq<char>>>, content: Seq<u8>) -> Result<
    Option<u64>,
    JsonFault,
> {
    match keys {
        None => Ok(Some(content_hash(content))),
        Some(keys) => current_json_hash(content, keys),
    }
}

/// The identity that the file's content would have once installed.
pub fn desired_app_hash(file: &AppFile, content: &[u8]) -> (result: Result<u64, JsonFault>)
    ensures
        result == desired_hash_of(file@.install_strategy, content@),
{
    match &file.install_strategy {
        AppInstallStrategy::Copy => Ok(hash_content(content)),
        AppInstallStrategy::JsonMerge { managed_keys } => managed_json_hash(
            content,
            managed_keys.as_slice(),
        ),
    }
}

/// The identity of what is installed.
pub fn installed_app_hash(file: &AppFile, content: &[u8]) -> (result: Result<
    Option<u64>,
    JsonFault,
>)
    ensures
        result == installed_hash_of(file@.install_strategy, content@),
{
    match &file.install_strategy {
        AppInstallStrategy::Copy => Ok(Some(hash_content(content))),
        AppInstallStrategy::JsonMerge { managed_keys } => installed_json_hash(
            content,
            managed_keys.as_slice(),
        ),
    }
}

/// A file that is not managed is never overwritten without a backup, and a preview
/// takes no step.
pub proof fn law_install_backs_up_unmanaged(
    content: Seq<u8>,
    is_managed: bool,
    dry_run: bool,
    force: bool,
    exists: bool,
    current: Option<Seq<u8>>,
    destination: Seq<char>,
    privileged: bool,
)
    ensures
        exists && !is_managed && !dry_run ==> copy_install(
            content,
            is_managed,
            dry_run,
            force,
            exists,
            current,
        ) == (CopyInstall::Write { back_up: true }),
        dry_run ==> copy_install_step_views(
            copy_install(content, is_managed, dry_run, force, exists, current),
            destination,
            content,
            privileged,
        ).len() == 0,
{
}

/// What a user changed is not removed unless that is forced, whether it is a whole
/// file or managed keys.
pub proof fn law_user_changes_are_kept(
    receipt_hash: u64,
    keys: Seq<Seq<char>>,
    dry_run: bool,
    current: Seq<u8>,
)
    ensures
        content_hash(current) != receipt_hash ==> !(copy_uninstall(
            receipt_hash,
            dry_run,
            false,
            Some(current),
        ) is Remove),
        current_json_hash(current, keys) != Ok::<Option<u64>, JsonFault>(Some(receipt_hash))
            ==> match json_uninstall(receipt_hash, keys, dry_run, false, Some(current)) {
            Ok(view) => !(view is Write),
            Err(_) => true,
        },
{
}

} // verus!
