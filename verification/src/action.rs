//! Declarative actions: what an approved operation does to the files of one
//! resource, and how each action is undone.

use vstd::prelude::*;
use vstd::string::*;

use crate::context::{review_path, review_text, RuntimeContext};
use crate::plan::{FilesystemAccessV1, PermissionSetV1, PermissionV1, PermissionView};
use crate::text::same_text;

verus! {

/// The action schema that this library writes and reads.
pub const ACTION_IR_SCHEMA_VERSION: u32 = 1;

/// A user file that was kept when its place was taken.
#[derive(Clone, Debug)]
pub struct ForcedManagedFileBackupV1 {
    pub path: String,
    pub mode: Option<u32>,
    pub hash: u64,
}

/// Actions on shell and system resources. App operations never carry them out.
#[derive(Clone, Copy, Debug, PartialEq, Eq, Structural)]
pub enum ForeignActionV1 {
    CreateShellLauncher,
    UpdateShellLauncher,
    RemoveShellLauncher,
    ReplaceShellSnapshot,
    ReplaceShellCache,
    RemoveShellCache,
    RemoveShellSnapshot,
    ReconcileShellProfile,
    ReconcileSysSplitDns,
    ReconcileSysProfileBlocks,
    ReplaceShellRenderedFile,
    RemoveShellRenderedFile,
    OpaqueExecution,
}

/// What an action does. Each action on a file names every path that it touches
/// and the identity of the content it expects there.
#[allow(inconsistent_fields)]
#[derive(Clone, Debug)]
pub enum ActionKindV1 {
    CreateManagedFile { destination: String, desired_hash: u64, requires_admin: bool },
    CreateManagedFileWithBackup {
        destination: String,
        backup: String,
        original_hash: u64,
        desired_hash: u64,
        requires_admin: bool,
    },
    UpdateManagedFile {
        destination: String,
        rollback: String,
        previous_backup: Option<String>,
        original_mode: Option<u32>,
        original_hash: u64,
        desired_hash: u64,
        requires_admin: bool,
    },
    RelocateManagedFile {
        previous_destination: String,
        previous_backup: Option<ForcedManagedFileBackupV1>,
        previous_rollback: String,
        desired_destination: String,
        previous_present: bool,
        previous_mode: Option<u32>,
        previous_hash: u64,
        desired_hash: u64,
        previous_uses_env: bool,
        desired_uses_env: bool,
        previous_requires_admin: bool,
        desired_requires_admin: bool,
    },
    RelocateManagedJson {
        previous_destination: String,
        previous_rollback: String,
        desired_destination: String,
        previous_present: bool,
        previous_mode: Option<u32>,
        previous_original_hash: Option<u64>,
        previous_receipt_hash: u64,
        previous_managed_keys: Vec<String>,
        desired_managed_hash: u64,
        desired_managed_keys: Vec<String>,
        previous_uses_env: bool,
        desired_uses_env: bool,
    },
    RemoveManagedFile {
        destination: String,
        rollback: String,
        original_mode: Option<u32>,
        original_hash: u64,
        uses_env: bool,
        requires_admin: bool,
    },
    RemoveManagedFileWithBackup {
        destination: String,
        backup: String,
        rollback: String,
        managed_mode: Option<u32>,
        managed_hash: u64,
        backup_mode: Option<u32>,
        backup_hash: u64,
        uses_env: bool,
        requires_admin: bool,
    },
    ForceRemoveManagedFile {
        destination: String,
        persistent_backup: Option<ForcedManagedFileBackupV1>,
        rollback: String,
        receipt_hash: u64,
        current_mode: Option<u32>,
        current_hash: u64,
        uses_env: bool,
        requires_admin: bool,
    },
    MergeManagedJson {
        destination: String,
        rollback: String,
        original_mode: Option<u32>,
        original_hash: Option<u64>,
        previous_receipt_hash: Option<u64>,
        desired_managed_hash: u64,
        managed_keys: Vec<String>,
    },
    RemoveManagedJson {
        destination: String,
        rollback: String,
        original_mode: Option<u32>,
        original_hash: u64,
        receipt_managed_hash: u64,
        current_managed_hash: u64,
        managed_keys: Vec<String>,
        uses_env: bool,
    },
    Foreign(ForeignActionV1),
}

/// How an action is undone.
#[derive(Clone, Copy, Debug, PartialEq, Eq, Structural)]
pub enum RollbackSupportV1 {
    RemoveCreatedIfUnchanged,
    RestoreBackupIfUnchanged,
    RestorePreviousIfUnchanged,
    RestoreRelocatedPreviousIfUnchanged,
    RestoreRelocatedJsonKeysIfUnchanged,
    RestorePreviousWithBackupIfUnchanged,
    RestoreForcedPreviousIfUnchanged,
    RestoreJsonKeysIfUnchanged,
    RestoreRemovedJsonKeysIfUnchanged,
    Unsupported,
}

/// The part that a path plays in an action.
#[derive(Clone, Copy, Debug, PartialEq, Eq, Structural)]
pub enum PathRole {
    Destination,
    Backup,
    Rollback,
    PreviousDestination,
    PreviousBackup,
    PreviousRollback,
    DesiredDestination,
}

/// An access to the path that plays a part.
#[derive(Clone, Copy, Debug, PartialEq, Eq, Structural)]
pub struct RoleAccess {
    pub access: FilesystemAccessV1,
    pub role: PathRole,
}

pub open spec fn writes(role: PathRole) -> RoleAccess {
    RoleAccess { access: FilesystemAccessV1::Write, role }
}

pub open spec fn removes(role: PathRole) -> RoleAccess {
    RoleAccess { access: FilesystemAccessV1::Remove, role }
}

/// The path that plays a part in an action, where the action has one.
pub open spec fn role_text(kind: ActionKindV1, role: PathRole) -> Option<Seq<char>> {
    match (kind, role) {
        (
            ActionKindV1::CreateManagedFile { destination, .. },
            PathRole::Destination,
        ) => Some(destination@),
        (
            ActionKindV1::CreateManagedFileWithBackup { destination, .. },
            PathRole::Destination,
        ) => Some(destination@),
        (
            ActionKindV1::CreateManagedFileWithBackup { backup, .. },
            PathRole::Backup,
        ) => Some(backup@),
        (
            ActionKindV1::UpdateManagedFile { destination, .. },
            PathRole::Destination,
        ) => Some(destination@),
        (ActionKindV1::UpdateManagedFile { rollback, .. }, PathRole::Rollback) => Some(rollback@),
        (
            ActionKindV1::RelocateManagedFile { previous_destination, .. },
            PathRole::PreviousDestination,
        ) => Some(previous_destination@),
        (
            ActionKindV1::RelocateManagedFile { previous_backup: Some(backup), .. },
            PathRole::PreviousBackup,
        ) => Some(backup.path@),
        (
            ActionKindV1::RelocateManagedFile { previous_rollback, .. },
            PathRole::PreviousRollback,
        ) => Some(previous_rollback@),
        (
            ActionKindV1::RelocateManagedFile { desired_destination, .. },
            PathRole::DesiredDestination,
        ) => Some(desired_destination@),
        (
            ActionKindV1::RelocateManagedJson { previous_destination, .. },
            PathRole::PreviousDestination,
        ) => Some(previous_destination@),
        (
            ActionKindV1::RelocateManagedJson { previous_rollback, .. },
            PathRole::PreviousRollback,
        ) => Some(previous_rollback@),
        (
            ActionKindV1::RelocateManagedJson { desired_destination, .. },
            PathRole::DesiredDestination,
        ) => Some(desired_destination@),
        (
            ActionKindV1::RemoveManagedFile { destination, .. },
            PathRole::Destination,
        ) => Some(destination@),
        (ActionKindV1::RemoveManagedFile { rollback, .. }, PathRole::Rollback) => Some(rollback@),
        (
            ActionKindV1::RemoveManagedFileWithBackup { destination, .. },
            PathRole::Destination,
        ) => Some(destination@),
        (
            ActionKindV1::RemoveManagedFileWithBackup { backup, .. },
            PathRole::Backup,
        ) => Some(backup@),
        (
            ActionKindV1::RemoveManagedFileWithBackup { rollback, .. },
            PathRole::Rollback,
        ) => Some(rollback@),
        (
            ActionKindV1::ForceRemoveManagedFile { destination, .. },
            PathRole::Destination,
        ) => Some(destination@),
        (
            ActionKindV1::ForceRemoveManagedFile { persistent_backup: Some(backup), .. },
            PathRole::Backup,
        ) => Some(backup.path@),
        (
            ActionKindV1::ForceRemoveManagedFile { rollback, .. },
            PathRole::Rollback,
        ) => Some(rollback@),
        (
            ActionKindV1::MergeManagedJson { destination, .. },
            PathRole::Destination,
        ) => Some(destination@),
        (ActionKindV1::MergeManagedJson { rollback, .. }, PathRole::Rollback) => Some(rollback@),
        (
            ActionKindV1::RemoveManagedJson { destination, .. },
            PathRole::Destination,
        ) => Some(destination@),
        (ActionKindV1::RemoveManagedJson { rollback, .. }, PathRole::Rollback) => Some(rollback@),
        _ => None,
    }
}

/// The accesses that carrying an action out and settling it afterwards need.
pub open spec fn action_accesses(kind: ActionKindV1) -> Seq<RoleAccess> {
    match kind {
        ActionKindV1::CreateManagedFile { .. } => seq![writes(PathRole::Destination)],
        ActionKindV1::CreateManagedFileWithBackup { .. } => seq![
            removes(PathRole::Destination),
            writes(PathRole::Backup),
            writes(PathRole::Destination),
        ],
        ActionKindV1::UpdateManagedFile { .. } => seq![
            removes(PathRole::Destination),
            writes(PathRole::Rollback),
            writes(PathRole::Destination),
            removes(PathRole::Rollback),
        ],
        ActionKindV1::RelocateManagedFile { previous_backup, previous_present, .. } => {
            let moved = if previous_present {
                seq![
                    removes(PathRole::PreviousDestination),
                    writes(PathRole::PreviousRollback),
                    removes(PathRole::PreviousRollback),
                ]
            } else {
                Seq::empty()
            };
            let returned = if previous_backup is Some {
                seq![removes(PathRole::PreviousBackup), writes(PathRole::PreviousDestination)]
            } else {
                Seq::empty()
            };
            moved + returned + seq![writes(PathRole::DesiredDestination)]
        },
        ActionKindV1::RelocateManagedJson { previous_present, .. } => {
            let moved = if previous_present {
                seq![
                    removes(PathRole::PreviousDestination),
                    writes(PathRole::PreviousRollback),
                    writes(PathRole::PreviousDestination),
                    removes(PathRole::PreviousRollback),
                ]
            } else {
                Seq::empty()
            };
            moved + seq![writes(PathRole::DesiredDestination)]
        },
        ActionKindV1::RemoveManagedFile { .. } => seq![
            removes(PathRole::Destination),
            writes(PathRole::Rollback),
            removes(PathRole::Rollback),
        ],
        ActionKindV1::RemoveManagedFileWithBackup { .. } => seq![
            removes(PathRole::Destination),
            writes(PathRole::Rollback),
            removes(PathRole::Rollback),
            removes(PathRole::Backup),
            writes(PathRole::Destination),
        ],
        ActionKindV1::ForceRemoveManagedFile { persistent_backup, .. } => {
            let staged = seq![
                removes(PathRole::Destination),
                writes(PathRole::Rollback),
                removes(PathRole::Rollback),
            ];
            if persistent_backup is Some {
                staged + seq![removes(PathRole::Backup), writes(PathRole::Destination)]
            } else {
                staged
            }
        },
        ActionKindV1::MergeManagedJson { original_hash, .. } => {
            let staged = if original_hash is Some {
                seq![
                    removes(PathRole::Destination),
                    writes(PathRole::Rollback),
                    removes(PathRole::Rollback),
                ]
            } else {
                Seq::empty()
            };
            staged + seq![writes(PathRole::Destination)]
        },
        ActionKindV1::RemoveManagedJson { .. } => seq![
            removes(PathRole::Destination),
            writes(PathRole::Rollback),
            writes(PathRole::Destination),
            removes(PathRole::Rollback),
        ],
        ActionKindV1::Foreign(_) => Seq::empty(),
    }
}

/// Whether carrying an action out needs administrator rights.
pub open spec fn action_needs_admin(kind: ActionKindV1) -> bool {
    match kind {
        ActionKindV1::CreateManagedFile { requires_admin, .. } => requires_admin,
        ActionKindV1::CreateManagedFileWithBackup { requires_admin, .. } => requires_admin,
        ActionKindV1::UpdateManagedFile { requires_admin, .. } => requires_admin,
        ActionKindV1::RelocateManagedFile {
            previous_present,
            previous_requires_admin,
            desired_requires_admin,
            ..
        } => (previous_present && previous_requires_admin) || desired_requires_admin,
        ActionKindV1::RemoveManagedFile { requires_admin, .. } => requires_admin,
        ActionKindV1::RemoveManagedFileWithBackup { requires_admin, .. } => requires_admin,
        ActionKindV1::ForceRemoveManagedFile { requires_admin, .. } => requires_admin,
        _ => false,
    }
}

/// Whether an action takes managed content away.
pub open spec fn removes_managed(kind: ActionKindV1) -> bool {
    kind is RemoveManagedFile || kind is RemoveManagedFileWithBackup
        || kind is ForceRemoveManagedFile || kind is RemoveManagedJson
}

fn write_to(role: PathRole) -> (access: RoleAccess)
    ensures
        access == writes(role),
{
    RoleAccess { access: FilesystemAccessV1::Write, role }
}

fn removal_of(role: PathRole) -> (access: RoleAccess)
    ensures
        access == removes(role),
{
    RoleAccess { access: FilesystemAccessV1::Remove, role }
}

impl ActionKindV1 {
    /// The path that plays `role` in the action.
    pub fn role_path(&self, role: PathRole) -> (path: Option<&String>)
        ensures
            path is Some <==> role_text(*self, role) is Some,
            path is Some ==> role_text(*self, role) == Some(path->0@),
    {
        match (self, role) {
            (ActionKindV1::CreateManagedFile { destination, .. }, PathRole::Destination) => Some(
                destination,
            ),
            (
                ActionKindV1::CreateManagedFileWithBackup { destination, .. },
                PathRole::Destination,
            ) => Some(destination),
            (ActionKindV1::CreateManagedFileWithBackup { backup, .. }, PathRole::Backup) => Some(
                backup,
            ),
            (ActionKindV1::UpdateManagedFile { destination, .. }, PathRole::Destination) => Some(
                destination,
            ),
            (ActionKindV1::UpdateManagedFile { rollback, .. }, PathRole::Rollback) => Some(
                rollback,
            ),
            (
                ActionKindV1::RelocateManagedFile { previous_destination, .. },
                PathRole::PreviousDestination,
            ) => Some(previous_destination),
            (
                ActionKindV1::RelocateManagedFile { previous_backup, .. },
                PathRole::PreviousBackup,
            ) => match previous_backup {
                Some(backup) => Some(&backup.path),
                None => None,
            },
            (
                ActionKindV1::RelocateManagedFile { previous_rollback, .. },
                PathRole::PreviousRollback,
            ) => Some(previous_rollback),
            (
                ActionKindV1::RelocateManagedFile { desired_destination, .. },
                PathRole::DesiredDestination,
            ) => Some(desired_destination),
            (
                ActionKindV1::RelocateManagedJson { previous_destination, .. },
                PathRole::PreviousDestination,
            ) => Some(previous_destination),
            (
                ActionKindV1::RelocateManagedJson { previous_rollback, .. },
                PathRole::PreviousRollback,
            ) => Some(previous_rollback),
            (
                ActionKindV1::RelocateManagedJson { desired_destination, .. },
                PathRole::DesiredDestination,
            ) => Some(desired_destination),
            (ActionKindV1::RemoveManagedFile { destination, .. }, PathRole::Destination) => Some(
                destination,
            ),
            (ActionKindV1::RemoveManagedFile { rollback, .. }, PathRole::Rollback) => Some(
                rollback,
            ),
            (
                ActionKindV1::RemoveManagedFileWithBackup { destination, .. },
                PathRole::Destination,
            ) => Some(destination),
            (ActionKindV1::RemoveManagedFileWithBackup { backup, .. }, PathRole::Backup) => Some(
                backup,
            ),
            (
                ActionKindV1::RemoveManagedFileWithBackup { rollback, .. },
                PathRole::Rollback,
            ) => Some(rollback),
            (
                ActionKindV1::ForceRemoveManagedFile { destination, .. },
                PathRole::Destination,
            ) => Some(destination),
            (
                ActionKindV1::ForceRemoveManagedFile { persistent_backup, .. },
                PathRole::Backup,
            ) => match persistent_backup {
                Some(backup) => Some(&backup.path),
                None => None,
            },
            (ActionKindV1::ForceRemoveManagedFile { rollback, .. }, PathRole::Rollback) => Some(
                rollback,
            ),
            (ActionKindV1::MergeManagedJson { destination, .. }, PathRole::Destination) => Some(
                destination,
            ),
            (ActionKindV1::MergeManagedJson { rollback, .. }, PathRole::Rollback) => Some(rollback),
            (ActionKindV1::RemoveManagedJson { destination, .. }, PathRole::Destination) => Some(
                destination,
            ),
            (ActionKindV1::RemoveManagedJson { rollback, .. }, PathRole::Rollback) => Some(
                rollback,
            ),
            _ => None,
        }
    }

    /// The accesses that the action needs.
    pub fn accesses(&self) -> (list: Vec<RoleAccess>)
        ensures
            list@ == action_accesses(*self),
    {
        let mut list: Vec<RoleAccess> = Vec::new();
        match self {
            ActionKindV1::CreateManagedFile { .. } => {
                list.push(write_to(PathRole::Destination));
            },
            ActionKindV1::CreateManagedFileWithBackup { .. } => {
                list.push(removal_of(PathRole::Destination));
                list.push(write_to(PathRole::Backup));
                list.push(write_to(PathRole::Destination));
            },
            ActionKindV1::UpdateManagedFile { .. } => {
                list.push(removal_of(PathRole::Destination));
                list.push(write_to(PathRole::Rollback));
                list.push(write_to(PathRole::Destination));
                list.push(removal_of(PathRole::Rollback));
            },
            ActionKindV1::RelocateManagedFile { previous_backup, previous_present, .. } => {
                if *previous_present {
                    list.push(removal_of(PathRole::PreviousDestination));
                    list.push(write_to(PathRole::PreviousRollback));
                    list.push(removal_of(PathRole::PreviousRollback));
                }
                if previous_backup.is_some() {
                    list.push(removal_of(PathRole::PreviousBackup));
                    list.push(write_to(PathRole::PreviousDestination));
                }
                list.push(write_to(PathRole::DesiredDestination));
            },
            ActionKindV1::RelocateManagedJson { previous_present, .. } => {
                if *previous_present {
                    list.push(removal_of(PathRole::PreviousDestination));
                    list.push(write_to(PathRole::PreviousRollback));
                    list.push(write_to(PathRole::PreviousDestination));
                    list.push(removal_of(PathRole::PreviousRollback));
                }
                list.push(write_to(PathRole::DesiredDestination));
            },
            ActionKindV1::RemoveManagedFile { .. } => {
                list.push(removal_of(PathRole::Destination));
                list.push(write_to(PathRole::Rollback));
                list.push(removal_of(PathRole::Rollback));
            },
            ActionKindV1::RemoveManagedFileWithBackup { .. } => {
                list.push(removal_of(PathRole::Destination));
                list.push(write_to(PathRole::Rollback));
                list.push(removal_of(PathRole::Rollback));
                list.push(removal_of(PathRole::Backup));
                list.push(write_to(PathRole::Destination));
            },
            ActionKindV1::ForceRemoveManagedFile { persistent_backup, .. } => {
                list.push(removal_of(PathRole::Destination));
                list.push(write_to(PathRole::Rollback));
                list.push(removal_of(PathRole::Rollback));
                if persistent_backup.is_some() {
                    list.push(removal_of(PathRole::Backup));
                    list.push(write_to(PathRole::Destination));
                }
            },
            ActionKindV1::MergeManagedJson { original_hash, .. } => {
                if original_hash.is_some() {
                    list.push(removal_of(PathRole::Destination));
                    list.push(write_to(PathRole::Rollback));
                    list.push(removal_of(PathRole::Rollback));
                }
                list.push(write_to(PathRole::Destination));
            },
            ActionKindV1::RemoveManagedJson { .. } => {
                list.push(removal_of(PathRole::Destination));
                list.push(write_to(PathRole::Rollback));
                list.push(write_to(PathRole::Destination));
                list.push(removal_of(PathRole::Rollback));
            },
            ActionKindV1::Foreign(_) => {},
        }
        proof {
            assert(list@ =~= action_accesses(*self));
        }
        list
    }

    /// Whether the action needs administrator rights.
    pub fn needs_admin(&self) -> (result: bool)
        ensures
            result == action_needs_admin(*self),
    {
        match self {
            ActionKindV1::CreateManagedFile { requires_admin, .. } => *requires_admin,
            ActionKindV1::CreateManagedFileWithBackup { requires_admin, .. } => *requires_admin,
            ActionKindV1::UpdateManagedFile { requires_admin, .. } => *requires_admin,
            ActionKindV1::RelocateManagedFile {
                previous_present,
                previous_requires_admin,
                desired_requires_admin,
                ..
            } => (*previous_present && *previous_requires_admin) || *desired_requires_admin,
            ActionKindV1::RemoveManagedFile { requires_admin, .. } => *requires_admin,
            ActionKindV1::RemoveManagedFileWithBackup { requires_admin, .. } => *requires_admin,
            ActionKindV1::ForceRemoveManagedFile { requires_admin, .. } => *requires_admin,
            _ => false,
        }
    }
}

/// Whether the action takes managed content away.
pub fn is_app_removal_action(kind: &ActionKindV1) -> (result: bool)
    ensures
        result == removes_managed(*kind),
{
    match kind {
        ActionKindV1::RemoveManagedFile { .. } => true,
        ActionKindV1::RemoveManagedFileWithBackup { .. } => true,
        ActionKindV1::ForceRemoveManagedFile { .. } => true,
        ActionKindV1::RemoveManagedJson { .. } => true,
        _ => false,
    }
}

/// One action on one resource of a target.
#[derive(Clone, Debug)]
pub struct DeclarativeActionV1 {
    pub action_id: String,
    pub target: String,
    pub resource: String,
    pub kind: ActionKindV1,
    pub rollback: RollbackSupportV1,
}

/// The text without the characters `mark` at its end.
pub open spec fn without_trailing(text: Seq<char>, mark: char) -> Seq<char>
    decreases text.len(),
{
    if text.len() > 0 && text.last() == mark {
        without_trailing(text.drop_last(), mark)
    } else {
        text
    }
}

/// The text without the characters `mark` at its beginning.
pub open spec fn without_leading(text: Seq<char>, mark: char) -> Seq<char>
    decreases text.len(),
{
    if text.len() > 0 && text[0] == mark {
        without_leading(text.drop_first(), mark)
    } else {
        text
    }
}

/// The source by which receipts know the resource of an action.
pub open spec fn source_identity(target: Seq<char>, resource: Seq<char>) -> Seq<char> {
    without_trailing(target, '/') + "/"@ + without_leading(resource, '/')
}

fn trim_end(text: &str, mark: char) -> (trimmed: String)
    ensures
        trimmed@ == without_trailing(text@, mark),
{
    let chars = crate::text::chars_of(text);
    let mut end: usize = chars.len();
    proof {
        assert(chars@.take(chars@.len() as int) =~= chars@);
    }
    while end > 0 && chars[end - 1] == mark
        invariant
            end <= chars.len(),
            without_trailing(chars@, mark) == without_trailing(chars@.take(end as int), mark),
        decreases end,
    {
        proof {
            assert(chars@.take(end as int).drop_last() =~= chars@.take(end as int - 1));
        }
        end -= 1;
    }
    let kept = vstd::slice::slice_subrange(chars.as_slice(), 0, end);
    proof {
        assert(kept@ =~= chars@.take(end as int));
    }
    crate::text::string_of(kept)
}

fn trim_start(text: &str, mark: char) -> (trimmed: String)
    ensures
        trimmed@ == without_leading(text@, mark),
{
    let chars = crate::text::chars_of(text);
    let mut start: usize = 0;
    proof {
        assert(chars@.skip(0) =~= chars@);
    }
    while start < chars.len() && chars[start] == mark
        invariant
            start <= chars.len(),
            without_leading(chars@, mark) == without_leading(chars@.skip(start as int), mark),
        decreases chars.len() - start,
    {
        proof {
            assert(chars@.skip(start as int).drop_first() =~= chars@.skip(start as int + 1));
        }
        start += 1;
    }
    let kept = vstd::slice::slice_subrange(chars.as_slice(), start, chars.len());
    proof {
        assert(kept@ =~= chars@.skip(start as int));
    }
    crate::text::string_of(kept)
}

impl DeclarativeActionV1 {
    pub open spec fn source(&self) -> Seq<char> {
        source_identity(self.target@, self.resource@)
    }
}

/// The source by which receipts know the resource of the action.
pub fn action_source_identity(action: &DeclarativeActionV1) -> (source: String)
    ensures
        source@ == action.source(),
{
    let mut source = trim_end(action.target.as_str(), '/');
    source.append("/");
    source.append(trim_start(action.resource.as_str(), '/').as_str());
    source
}

/// What is wrong with a list of actions.
#[derive(Clone, Copy, Debug, PartialEq, Eq, Structural)]
pub enum ActionIrError {
    UnsupportedSchema,
    MissingOperationId,
    MissingActionId,
    DuplicateActionId,
}

/// The actions of one operation.
#[derive(Clone, Debug)]
pub struct ActionIrV1 {
    pub schema_version: u32,
    pub operation_id: String,
    pub actions: Vec<DeclarativeActionV1>,
}

/// The ids of a list of actions.
pub open spec fn action_ids(actions: Seq<DeclarativeActionV1>) -> Seq<Seq<char>> {
    actions.map_values(|action: DeclarativeActionV1| action.action_id@)
}

/// The permissions that a list of actions needs, and why some are unknown.
#[derive(Clone, Debug)]
pub struct PermissionRequirementsV1 {
    pub required: PermissionSetV1,
    pub uncomputable_codes: Vec<String>,
}

/// The permission for one access of an action.
pub open spec fn access_permission(
    context: RuntimeContext,
    kind: ActionKindV1,
    access: RoleAccess,
) -> PermissionView {
    PermissionView::Filesystem {
        access: access.access,
        path: review_text(context, role_text(kind, access.role).unwrap_or(Seq::empty())),
    }
}

/// The permissions that one action needs.
pub open spec fn action_permissions(context: RuntimeContext, kind: ActionKindV1) -> Set<
    PermissionView,
> {
    Set::new(
        |permission: PermissionView|
            {
                ||| exists|i: int|
                    0 <= i < action_accesses(kind).len() && permission == access_permission(
                        context,
                        kind,
                        #[trigger] action_accesses(kind)[i],
                    )
                ||| action_needs_admin(kind) && permission == PermissionView::Administrator
            },
    )
}

/// The permissions that a list of actions needs.
pub open spec fn all_permissions(
    context: RuntimeContext,
    actions: Seq<DeclarativeActionV1>,
) -> Set<PermissionView>
    decreases actions.len(),
{
    if actions.len() == 0 {
        Set::empty()
    } else {
        all_permissions(context, actions.drop_last()).union(
            action_permissions(context, actions.last().kind),
        )
    }
}

/// Whether every action is one whose permissions are known.
pub open spec fn permissions_known(actions: Seq<DeclarativeActionV1>) -> bool {
    forall|i: int| 0 <= i < actions.len() ==> !((#[trigger] actions[i]).kind is Foreign)
}

impl ActionIrV1 {
    pub fn new(operation_id: &str, actions: Vec<DeclarativeActionV1>) -> (ir: ActionIrV1)
        ensures
            ir.schema_version == ACTION_IR_SCHEMA_VERSION,
            ir.operation_id@ == operation_id@,
            ir.actions == actions,
    {
        ActionIrV1 {
            schema_version: ACTION_IR_SCHEMA_VERSION,
            operation_id: operation_id.to_owned(),
            actions,
        }
    }

    /// What validation gives: the first thing that is wrong.
    pub open spec fn verdict(&self) -> Result<(), ActionIrError> {
        if self.schema_version != ACTION_IR_SCHEMA_VERSION {
            Err(ActionIrError::UnsupportedSchema)
        } else if self.operation_id@.len() == 0 {
            Err(ActionIrError::MissingOperationId)
        } else if exists|i: int|
            0 <= i < self.actions@.len() && (#[trigger] self.actions@[i]).action_id@.len() == 0 {
            Err(ActionIrError::MissingActionId)
        } else if !action_ids(self.actions@).no_duplicates() {
            Err(ActionIrError::DuplicateActionId)
        } else {
            Ok(())
        }
    }

    /// Whether the schema is known, and the operation and each of its actions
    /// has an id of its own.
    pub fn validate(&self) -> (result: Result<(), ActionIrError>)
        ensures
            result == self.verdict(),
    {
        if self.schema_version != ACTION_IR_SCHEMA_VERSION {
            return Err(ActionIrError::UnsupportedSchema);
        }
        if self.operation_id.as_str().is_empty() {
            return Err(ActionIrError::MissingOperationId);
        }
        let mut i: usize = 0;
        while i < self.actions.len()
            invariant
                i <= self.actions.len(),
                forall|j: int| 0 <= j < i ==> (#[trigger] self.actions@[j]).action_id@.len() > 0,
                self.schema_version == ACTION_IR_SCHEMA_VERSION,
                self.operation_id@.len() > 0,
            decreases self.actions.len() - i,
        {
            if self.actions[i].action_id.as_str().is_empty() {
                return Err(ActionIrError::MissingActionId);
            }
            i += 1;
        }
        let ghost ids = action_ids(self.actions@);
        let mut left: usize = 0;
        while left < self.actions.len()
            invariant
                left <= self.actions.len(),
                ids == action_ids(self.actions@),
                forall|a: int, b: int| 0 <= a < left && a < b < ids.len() ==> ids[a] != ids[b],
                self.schema_version == ACTION_IR_SCHEMA_VERSION,
                self.operation_id@.len() > 0,
                forall|j: int|
                    0 <= j < self.actions@.len() ==> (#[trigger] self.actions@[j]).action_id@.len()
                        > 0,
            decreases self.actions.len() - left,
        {
            let mut right: usize = left + 1;
            while right < self.actions.len()
                invariant
                    left < right <= self.actions.len(),
                    ids == action_ids(self.actions@),
                    forall|b: int| left < b < right ==> ids[left as int] != ids[b],
                    self.schema_version == ACTION_IR_SCHEMA_VERSION,
                    self.operation_id@.len() > 0,
                    forall|j: int|
                        0 <= j < self.actions@.len() ==> (
                        #[trigger] self.actions@[j]).action_id@.len() > 0,
                decreases self.actions.len() - right,
            {
                proof {
                    assert(ids[left as int] == self.actions@[left as int].action_id@);
                    assert(ids[right as int] == self.actions@[right as int].action_id@);
                }
                if same_text(
                    self.actions[left].action_id.as_str(),
                    self.actions[right].action_id.as_str(),
                ) {
                    return Err(ActionIrError::DuplicateActionId);
                }
                right += 1;
            }
            left += 1;
        }
        proof {
            assert forall|a: int, b: int|
                0 <= a < ids.len() && 0 <= b < ids.len() && a != b implies ids[a] != ids[b] by {
                if a < b {
                } else {
                    assert(ids[b] != ids[a]);
                }
            }
        }
        Ok(())
    }

    /// The permissions that the actions need, by the review paths of `context`.
    pub fn permission_requirements(&self, context: &RuntimeContext) -> (requirements:
        PermissionRequirementsV1)
        ensures
            requirements.required.well_formed(),
            requirements.required@ == all_permissions(*context, self.actions@),
            requirements.uncomputable_codes@.len() == 0 <==> permissions_known(self.actions@),
            forall|i: int|
                0 <= i < requirements.uncomputable_codes@.len() ==> (
                #[trigger] requirements.uncomputable_codes@[i])@ == "opaque_action"@,
    {
        let mut required = PermissionSetV1::new();
        let mut uncomputable_codes: Vec<String> = Vec::new();
        let mut i: usize = 0;
        proof {
            assert(self.actions@.take(0) =~= Seq::<DeclarativeActionV1>::empty());
        }
        while i < self.actions.len()
            invariant
                i <= self.actions.len(),
                required.well_formed(),
                required@ == all_permissions(*context, self.actions@.take(i as int)),
                uncomputable_codes@.len() == 0 <==> permissions_known(self.actions@.take(i as int)),
                forall|j: int|
                    0 <= j < uncomputable_codes@.len() ==> (#[trigger] uncomputable_codes@[j])@
                        == "opaque_action"@,
            decreases self.actions.len() - i,
        {
            let kind = &self.actions[i].kind;
            let accesses = kind.accesses();
            let ghost before = required@;
            let ghost codes_before = uncomputable_codes@;
            let ghost head = self.actions@.take(i as int);
            let ghost next = self.actions@.take(i as int + 1);
            proof {
                assert(next.drop_last() =~= head);
                assert(next.last() == self.actions@[i as int]);
            }
            let mut k: usize = 0;
            while k < accesses.len()
                invariant
                    k <= accesses.len(),
                    accesses@ == action_accesses(*kind),
                    required.well_formed(),
                    forall|p: PermissionView| #[trigger]
                        required@.contains(p) <==> before.contains(p) || exists|a: int|
                            0 <= a < k && p == access_permission(
                                *context,
                                *kind,
                                #[trigger] action_accesses(*kind)[a],
                            ),
                decreases accesses.len() - k,
            {
                let path: String = match kind.role_path(accesses[k].role) {
                    Some(path) => path.clone(),
                    None => String::new(),
                };
                let ghost held = required@;
                let ghost added = access_permission(*context, *kind, action_accesses(*kind)[k as int]);
                required.insert(
                    PermissionV1::Filesystem {
                        access: accesses[k].access,
                        path: review_path(context, path.as_str()),
                    },
                );
                proof {
                    assert(required@ == held.insert(added));
                    assert forall|p: PermissionView| #[trigger] required@.contains(p) <==> (
                    before.contains(p) || exists|a: int|
                        0 <= a < k + 1 && p == access_permission(
                            *context,
                            *kind,
                            #[trigger] action_accesses(*kind)[a],
                        )) by {
                        if p == added {
                            assert(p == access_permission(
                                *context,
                                *kind,
                                action_accesses(*kind)[k as int],
                            ));
                        }
                        if held.contains(p) && !before.contains(p) {
                            let a = choose|a: int|
                                0 <= a < k && p == access_permission(
                                    *context,
                                    *kind,
                                    #[trigger] action_accesses(*kind)[a],
                                );
                            assert(0 <= a < k + 1);
                        }
                    }
                }
                k += 1;
            }
            if kind.needs_admin() {
                required.insert(PermissionV1::Administrator);
            }
            if let ActionKindV1::Foreign(_) = kind {
                uncomputable_codes.push("opaque_action".to_owned());
            }
            proof {
                assert(required@ =~= before.union(action_permissions(*context, *kind)));
                assert(permissions_known(next) <==> (permissions_known(head) && !(kind is Foreign)))
                    by {
                    assert forall|j: int| 0 <= j < head.len() implies head[j] == next[j] by {}
                    if permissions_known(next) {
                        assert forall|j: int| 0 <= j < head.len() implies !((
                        #[trigger] head[j]).kind is Foreign) by {
                            assert(next[j] == head[j]);
                        }
                        assert(next[i as int].kind == *kind);
                    }
                    if permissions_known(head) && !(kind is Foreign) {
                        assert forall|j: int| 0 <= j < next.len() implies !((
                        #[trigger] next[j]).kind is Foreign) by {
                            if j < head.len() {
                                assert(head[j] == next[j]);
                            }
                        }
                    }
                }
            }
            i += 1;
        }
        proof {
            assert(self.actions@.take(self.actions@.len() as int) =~= self.actions@);
        }
        PermissionRequirementsV1 { required, uncomputable_codes }
    }
}

} // verus!
