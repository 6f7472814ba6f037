//! From an approved operation to the host steps that carry it out.

use vstd::prelude::*;
use vstd::string::*;

use crate::action::{
    action_needs_admin, ActionIrV1, ActionKindV1, DeclarativeActionV1, PathRole,
};
use crate::content::copy_bytes;
use crate::context::RuntimeContext;
use crate::execution::{
    authorization, authorize_execution, changes_of, check_content, content_verdict,
    execution_changes, execution_guards, guards_of, is_forced, overrides_user, ExecutionChange,
    Guard,
};
use crate::execution_fault::{ExecutionFault, ExecutionKind};
use crate::json::{
    merge_managed_json_bytes, merge_result, remove_managed_json_bytes, removal_result, JsonFault,
};
use crate::manifest::{AppEntryView, AppManifest};
use crate::plan::{optional_text, PlanApprovalV1, PlanV1};
use crate::recovery_planner::role_or_empty;
use crate::recovery_run::{host_step_views, HostStep, HostStepView};
use crate::text::texts;

verus! {

/// What holding an operation against its approval and its content gives.
pub open spec fn admission(
    kind: ExecutionKind,
    context: RuntimeContext,
    plan: PlanV1,
    approval: PlanApprovalV1,
    ir: ActionIrV1,
    content: Seq<u8>,
) -> Result<(), ExecutionFault> {
    match authorization(kind, context, plan, approval, ir) {
        Err(fault) => Err(fault),
        Ok(_) => content_verdict(ir.actions@[0].kind, content),
    }
}

/// Holds an operation against its approval and its content.
pub fn admit_execution(
    kind: ExecutionKind,
    context: &RuntimeContext,
    plan: &PlanV1,
    approval: &PlanApprovalV1,
    ir: &ActionIrV1,
    content: &[u8],
) -> (result: Result<(), ExecutionFault>)
    ensures
        result == admission(kind, *context, *plan, *approval, *ir, content@),
{
    if let Err(fault) = authorize_execution(kind, context, plan, approval, ir) {
        return Err(fault);
    }
    check_content(&ir.actions[0].kind, content)
}

/// What holding an admitted operation against the journal and the receipts gives: the
/// guards that are left, or the fault.
pub open spec fn opening(
    action: DeclarativeActionV1,
    journal_present: bool,
    entries: Seq<AppEntryView>,
) -> Result<Seq<Guard>, ExecutionFault> {
    if journal_present {
        Err(ExecutionFault::JournalPresent)
    } else {
        guards_of(entries, action)
    }
}

/// The guards of an opening, by their values.
pub open spec fn opened_guards(result: Result<Vec<Guard>, ExecutionFault>) -> Result<
    Seq<Guard>,
    ExecutionFault,
> {
    match result {
        Ok(guards) => Ok(guards@),
        Err(fault) => Err(fault),
    }
}

/// Holds an admitted operation against the journal and the receipts, and says what
/// must still hold of its paths.
pub fn open_execution(
    action: &DeclarativeActionV1,
    journal_present: bool,
    manifest: &AppManifest,
) -> (result: Result<Vec<Guard>, ExecutionFault>)
    ensures
        opened_guards(result) == opening(*action, journal_present, manifest@),
{
    if journal_present {
        return Err(ExecutionFault::JournalPresent);
    }
    execution_guards(manifest, action)
}

/// What an operation writes: the content at its destination, and what is left of
/// an object that loses its managed keys.
#[derive(Clone, Debug)]
pub struct PreparedContent {
    pub written: Vec<u8>,
    pub remaining: Vec<u8>,
}

/// What an operation writes, by its values.
pub ghost struct PreparedView {
    pub written: Seq<u8>,
    pub remaining: Seq<u8>,
}

/// What an operation writes, from the content it brings and the content that
/// stands where it starts.
pub open spec fn prepared_content(
    kind: ActionKindV1,
    content: Seq<u8>,
    found: Option<Seq<u8>>,
) -> Result<PreparedView, JsonFault> {
    match kind {
        ActionKindV1::MergeManagedJson { managed_keys, .. } => match merge_result(
            found,
            content,
            texts(managed_keys@),
        ) {
            Ok(written) => Ok(PreparedView { written, remaining: Seq::empty() }),
            Err(fault) => Err(fault),
        },
        ActionKindV1::RelocateManagedJson { previous_managed_keys, desired_managed_keys, .. } => {
            let remaining = match found {
                Some(found) => removal_result(found, texts(previous_managed_keys@)),
                None => Ok(Seq::empty()),
            };
            match remaining {
                Err(fault) => Err(fault),
                Ok(remaining) => match merge_result(None, content, texts(desired_managed_keys@)) {
                    Ok(written) => Ok(PreparedView { written, remaining }),
                    Err(fault) => Err(fault),
                },
            }
        },
        ActionKindV1::RemoveManagedJson { managed_keys, .. } => match found {
            Some(found) => match removal_result(found, texts(managed_keys@)) {
                Ok(remaining) => Ok(PreparedView { written: Seq::empty(), remaining }),
                Err(fault) => Err(fault),
            },
            None => Err(JsonFault::DestinationNotObject),
        },
        _ => Ok(PreparedView { written: content, remaining: Seq::empty() }),
    }
}

/// What the operation writes.
pub fn prepare_content(kind: &ActionKindV1, content: &[u8], found: Option<&[u8]>) -> (result:
    Result<PreparedContent, JsonFault>)
    ensures
        match prepared_content(
            *kind,
            content@,
            match found {
                Some(found) => Some(found@),
                None => None,
            },
        ) {
            Ok(view) => result is Ok && result->Ok_0.written@ == view.written
                && result->Ok_0.remaining@ == view.remaining,
            Err(fault) => result is Err && result->Err_0 == fault,
        },
{
    let nothing: Vec<u8> = Vec::new();
    proof {
        assert(nothing@ =~= Seq::<u8>::empty());
    }
    match kind {
        ActionKindV1::MergeManagedJson { managed_keys, .. } => {
            match merge_managed_json_bytes(found, content, managed_keys.as_slice()) {
                Ok(written) => Ok(PreparedContent { written, remaining: nothing }),
                Err(fault) => Err(fault),
            }
        },
        ActionKindV1::RelocateManagedJson { previous_managed_keys, desired_managed_keys, .. } => {
            let remaining = match found {
                Some(found) => match remove_managed_json_bytes(
                    found,
                    previous_managed_keys.as_slice(),
                ) {
                    Ok(remaining) => remaining,
                    Err(fault) => return Err(fault),
                },
                None => nothing,
            };
            match merge_managed_json_bytes(None, content, desired_managed_keys.as_slice()) {
                Ok(written) => Ok(PreparedContent { written, remaining }),
                Err(fault) => Err(fault),
            }
        },
        ActionKindV1::RemoveManagedJson { managed_keys, .. } => match found {
            Some(found) => match remove_managed_json_bytes(found, managed_keys.as_slice()) {
                Ok(remaining) => Ok(PreparedContent { written: nothing, remaining }),
                Err(fault) => Err(fault),
            },
            None => Err(JsonFault::DestinationNotObject),
        },
        _ => Ok(PreparedContent { written: copy_bytes(content), remaining: nothing }),
    }
}

/// The host step of one change.
pub open spec fn step_of_change(
    kind: ActionKindV1,
    change: ExecutionChange,
    content: PreparedView,
) -> HostStepView {
    match change {
        ExecutionChange::Move { from, to, privileged } => HostStepView::MoveFile {
            from: role_or_empty(kind, from),
            to: role_or_empty(kind, to),
            privileged,
        },
        ExecutionChange::Write { role, privileged } => HostStepView::WriteFile {
            path: role_or_empty(kind, role),
            content: content.written,
            privileged,
        },
        ExecutionChange::WriteRemaining { role } => HostStepView::WriteFile {
            path: role_or_empty(kind, role),
            content: content.remaining,
            privileged: false,
        },
        ExecutionChange::SetMode { role, mode, privileged } => HostStepView::SetMode {
            path: role_or_empty(kind, role),
            mode,
            privileged,
        },
    }
}

/// The host steps that carry an action out, in order.
pub open spec fn execution_step_views(kind: ActionKindV1, content: PreparedView) -> Seq<
    HostStepView,
> {
    changes_of(kind).map_values(|change: ExecutionChange| step_of_change(kind, change, content))
}

fn path_of(kind: &ActionKindV1, role: PathRole) -> (path: String)
    ensures
        path@ == role_or_empty(*kind, role),
{
    match kind.role_path(role) {
        Some(path) => path.clone(),
        None => String::new(),
    }
}

/// The host steps that carry the action out, in order.
pub fn execution_steps(kind: &ActionKindV1, content: &PreparedContent) -> (steps: Vec<HostStep>)
    ensures
        host_step_views(steps@) == execution_step_views(
            *kind,
            PreparedView { written: content.written@, remaining: content.remaining@ },
        ),
{
    let changes = execution_changes(kind);
    let ghost view = PreparedView {
        written: content.written@,
        remaining: content.remaining@,
    };
    let ghost all = execution_step_views(*kind, view);
    let mut steps: Vec<HostStep> = Vec::new();
    let mut i: usize = 0;
    proof {
        assert(host_step_views(steps@) =~= all.take(0));
    }
    while i < changes.len()
        invariant
            i <= changes.len(),
            changes@ == changes_of(*kind),
            view == (PreparedView { written: content.written@, remaining: content.remaining@ }),
            all == execution_step_views(*kind, view),
            host_step_views(steps@) == all.take(i as int),
        decreases changes.len() - i,
    {
        let ghost before = steps@;
        let step = match changes[i] {
            ExecutionChange::Move { from, to, privileged } => HostStep::MoveFile {
                from: path_of(kind, from),
                to: path_of(kind, to),
                privileged,
            },
            ExecutionChange::Write { role, privileged } => HostStep::WriteFile {
                path: path_of(kind, role),
                content: copy_bytes(content.written.as_slice()),
                privileged,
            },
            ExecutionChange::WriteRemaining { role } => HostStep::WriteFile {
                path: path_of(kind, role),
                content: copy_bytes(content.remaining.as_slice()),
                privileged: false,
            },
            ExecutionChange::SetMode { role, mode, privileged } => HostStep::SetMode {
                path: path_of(kind, role),
                mode,
                privileged,
            },
        };
        let ghost added = step@;
        steps.push(step);
        proof {
            assert(added == step_of_change(*kind, changes@[i as int], view));
            assert(all.take(i as int + 1) =~= all.take(i as int).push(all[i as int]));
            assert(host_step_views(steps@) =~= host_step_views(before).push(added));
        }
        i += 1;
    }
    proof {
        assert(all.take(all.len() as int) =~= all);
    }
    steps
}

/// What a finished operation hands to its commit.
#[derive(Clone, Debug)]
pub struct AppOperationExecutionV1 {
    pub operation_id: String,
    pub backup: Option<String>,
    pub forced: bool,
    pub holds_privileged_operation: bool,
}

/// The backup that a receipt of the action names afterwards, or that a removal
/// gave back.
pub open spec fn execution_backup(kind: ActionKindV1) -> Option<Seq<char>> {
    match kind {
        ActionKindV1::CreateManagedFileWithBackup { backup, .. } => Some(backup@),
        ActionKindV1::UpdateManagedFile { previous_backup, .. } => optional_text(previous_backup),
        ActionKindV1::RemoveManagedFileWithBackup { backup, .. } => Some(backup@),
        ActionKindV1::ForceRemoveManagedFile { persistent_backup, .. } => match persistent_backup {
            Some(backup) => Some(backup.path@),
            None => None,
        },
        _ => None,
    }
}

/// What the finished operation hands to its commit: a privileged operation stays
/// locked until then.
pub fn finish_execution(operation_id: &str, kind: &ActionKindV1) -> (execution:
    AppOperationExecutionV1)
    ensures
        execution.operation_id@ == operation_id@,
        optional_text(execution.backup) == execution_backup(*kind),
        execution.forced == overrides_user(*kind),
        execution.holds_privileged_operation == action_needs_admin(*kind),
{
    let backup: Option<String> = match kind {
        ActionKindV1::CreateManagedFileWithBackup { backup, .. } => Some(backup.clone()),
        ActionKindV1::UpdateManagedFile { previous_backup, .. } => match previous_backup {
            Some(backup) => Some(backup.clone()),
            None => None,
        },
        ActionKindV1::RemoveManagedFileWithBackup { backup, .. } => Some(backup.clone()),
        ActionKindV1::ForceRemoveManagedFile { persistent_backup, .. } => match persistent_backup {
            Some(backup) => Some(backup.path.clone()),
            None => None,
        },
        _ => None,
    };
    AppOperationExecutionV1 {
        operation_id: operation_id.to_owned(),
        backup,
        forced: is_forced(kind),
        holds_privileged_operation: kind.needs_admin(),
    }
}

} // verus!
