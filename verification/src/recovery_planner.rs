//! Makes the recovery plan of a journal, action by action.

use vstd::prelude::*;
use vstd::string::*;
use vstd::utf8::encode_utf8;

use crate::action::{
    access_permission, is_app_removal_action, removes_managed, role_text, ActionKindV1,
    DeclarativeActionV1, PathRole, RoleAccess,
};
use crate::content::content_hash;
use crate::context::{
    permissions_touch, recovery_permissions_touch_paths, review_path, review_text, review_texts,
    RuntimeContext,
};
use crate::journal::{
    AppOperationJournalV1, JournalActionStateV1, JournalError, APP_OPERATION_JOURNAL_FILE,
};
use crate::json::JsonFault;
use crate::manifest::{AppEntryView, AppManifest};
use crate::path::{join, path_join};
use crate::plan::{
    observation_bytes, observation_views, step_views, DigestView, FilesystemAccessV1,
    PermissionSetV1, PermissionV1, PermissionView, PlanActionV1, PlanInputsV1, PlanOperationV1,
    PlanStepV1, PlanStepView, PlanV1, SnapshotDigestBuilder, SnapshotDigestV1,
};
use crate::receipts::{
    conflicting_app_receipt, matching_app_receipt, matching_previous_app_receipt,
    previous_receipt_matches, receipt_conflicts, receipt_matches, removal_conflicts,
    removal_receipt_conflict,
};
use crate::recovery::{file_identity, FileView, RecoveryFileObservation};
use crate::recovery_plan::{
    decide_recovery, file_views, observed_roles, recovery_decision, roles_to_observe, DecisionView,
    RecoveryCode,
};
use crate::text::texts;

verus! {

/// Why no recovery plan can be made.
#[derive(Clone, Copy, Debug, PartialEq, Eq, Structural)]
pub enum RecoveryPlanError {
    /// A file that should hold a JSON object does not.
    Json { fault: JsonFault },
    /// The journal lacks the state of an action.
    Journal { error: JournalError },
    /// The findings for an action are not those that were asked for.
    ObservationMismatch,
}

/// What a planner knows after some of the actions.
pub ghost struct PlannerView {
    pub required: Set<PermissionView>,
    pub steps: Seq<PlanStepView>,
    pub blocked: bool,
    pub observed: Seq<(Seq<char>, Seq<u8>)>,
}

/// The path of the journal.
pub open spec fn journal_text(context: RuntimeContext) -> Seq<char> {
    path_join(context.shine_dir@, APP_OPERATION_JOURNAL_FILE@)
}

/// The path of the journal.
pub fn journal_path(context: &RuntimeContext) -> (path: String)
    ensures
        path@ == journal_text(*context),
{
    join(context.shine_dir.as_str(), APP_OPERATION_JOURNAL_FILE)
}

/// Permission to remove the journal.
pub open spec fn journal_permission(context: RuntimeContext) -> PermissionView {
    PermissionView::Filesystem {
        access: FilesystemAccessV1::Remove,
        path: review_text(context, journal_text(context)),
    }
}

/// Permission to write the manifest.
pub open spec fn manifest_permission(context: RuntimeContext) -> PermissionView {
    PermissionView::Filesystem {
        access: FilesystemAccessV1::Write,
        path: review_text(context, context.manifest_text()),
    }
}

/// The label under which what was found for a part is recorded.
pub open spec fn role_label(kind: ActionKindV1, role: PathRole) -> Seq<char> {
    if kind is RelocateManagedJson {
        match role {
            PathRole::PreviousDestination => "previous-json-destination:"@,
            PathRole::PreviousRollback => "previous-json-rollback:"@,
            _ => "desired-json-destination:"@,
        }
    } else {
        match role {
            PathRole::Destination => "destination:"@,
            PathRole::Backup => "backup:"@,
            PathRole::Rollback => "rollback:"@,
            PathRole::PreviousDestination => "previous-destination:"@,
            PathRole::PreviousBackup => "previous-backup:"@,
            PathRole::PreviousRollback => "previous-rollback:"@,
            PathRole::DesiredDestination => "desired-destination:"@,
        }
    }
}

fn label_of_role(kind: &ActionKindV1, role: PathRole) -> (label: &'static str)
    ensures
        label@ == role_label(*kind, role),
{
    if let ActionKindV1::RelocateManagedJson { .. } = kind {
        match role {
            PathRole::PreviousDestination => "previous-json-destination:",
            PathRole::PreviousRollback => "previous-json-rollback:",
            _ => "desired-json-destination:",
        }
    } else {
        match role {
            PathRole::Destination => "destination:",
            PathRole::Backup => "backup:",
            PathRole::Rollback => "rollback:",
            PathRole::PreviousDestination => "previous-destination:",
            PathRole::PreviousBackup => "previous-backup:",
            PathRole::PreviousRollback => "previous-rollback:",
            PathRole::DesiredDestination => "desired-destination:",
        }
    }
}

/// What was found for one part of an action, as it is recorded.
pub open spec fn finding(action: DeclarativeActionV1, role: PathRole, file: FileView) -> (
    Seq<char>,
    Seq<u8>,
) {
    (role_label(action.kind, role) + action.action_id@, encode_utf8(file_identity(file)))
}

/// What was found for an action, as it is recorded.
pub open spec fn findings(action: DeclarativeActionV1, files: Seq<FileView>) -> Seq<
    (Seq<char>, Seq<u8>),
> {
    Seq::new(
        observed_roles(action.kind).len(),
        |i: int| finding(action, observed_roles(action.kind)[i], files[i]),
    )
}

/// The parts whose change needs administrator rights. A creation whose receipt
/// is there has nothing left to change.
pub open spec fn admin_roles(kind: ActionKindV1, receipt: bool) -> Seq<PathRole> {
    match kind {
        ActionKindV1::CreateManagedFile { requires_admin, .. } => if requires_admin && !receipt {
            seq![PathRole::Destination]
        } else {
            Seq::empty()
        },
        ActionKindV1::CreateManagedFileWithBackup { requires_admin, .. } => if requires_admin
            && !receipt {
            seq![PathRole::Destination, PathRole::Backup]
        } else {
            Seq::empty()
        },
        ActionKindV1::UpdateManagedFile { requires_admin, .. } => if requires_admin {
            seq![PathRole::Destination, PathRole::Rollback]
        } else {
            Seq::empty()
        },
        ActionKindV1::RelocateManagedFile {
            previous_backup,
            previous_requires_admin,
            desired_requires_admin,
            ..
        } => {
            let previous = if !previous_requires_admin {
                Seq::empty()
            } else if previous_backup is Some {
                seq![
                    PathRole::PreviousDestination,
                    PathRole::PreviousRollback,
                    PathRole::PreviousBackup,
                ]
            } else {
                seq![PathRole::PreviousDestination, PathRole::PreviousRollback]
            };
            if desired_requires_admin {
                previous.push(PathRole::DesiredDestination)
            } else {
                previous
            }
        },
        ActionKindV1::RemoveManagedFile { requires_admin, .. } => if requires_admin {
            seq![PathRole::Destination, PathRole::Rollback]
        } else {
            Seq::empty()
        },
        ActionKindV1::RemoveManagedFileWithBackup { requires_admin, .. } => if requires_admin {
            seq![PathRole::Destination, PathRole::Backup, PathRole::Rollback]
        } else {
            Seq::empty()
        },
        ActionKindV1::ForceRemoveManagedFile { persistent_backup, requires_admin, .. } =>
        if !requires_admin {
            Seq::empty()
        } else if persistent_backup is Some {
            seq![PathRole::Destination, PathRole::Rollback, PathRole::Backup]
        } else {
            seq![PathRole::Destination, PathRole::Rollback]
        },
        _ => Seq::empty(),
    }
}

/// The path of a part; empty where the action has no such part.
pub open spec fn role_or_empty(kind: ActionKindV1, role: PathRole) -> Seq<char> {
    match role_text(kind, role) {
        Some(path) => path,
        None => Seq::empty(),
    }
}

/// The paths of a list of parts.
pub open spec fn role_paths(kind: ActionKindV1, roles: Seq<PathRole>) -> Seq<Seq<char>> {
    roles.map_values(|role: PathRole| role_or_empty(kind, role))
}

fn privileged_roles(kind: &ActionKindV1, receipt: bool) -> (roles: Vec<PathRole>)
    ensures
        roles@ == admin_roles(*kind, receipt),
{
    let mut roles: Vec<PathRole> = Vec::new();
    match kind {
        ActionKindV1::CreateManagedFile { requires_admin, .. } => {
            if *requires_admin && !receipt {
                roles.push(PathRole::Destination);
            }
        },
        ActionKindV1::CreateManagedFileWithBackup { requires_admin, .. } => {
            if *requires_admin && !receipt {
                roles.push(PathRole::Destination);
                roles.push(PathRole::Backup);
            }
        },
        ActionKindV1::UpdateManagedFile { requires_admin, .. } => {
            if *requires_admin {
                roles.push(PathRole::Destination);
                roles.push(PathRole::Rollback);
            }
        },
        ActionKindV1::RelocateManagedFile {
            previous_backup,
            previous_requires_admin,
            desired_requires_admin,
            ..
        } => {
            if *previous_requires_admin {
                roles.push(PathRole::PreviousDestination);
                roles.push(PathRole::PreviousRollback);
                if previous_backup.is_some() {
                    roles.push(PathRole::PreviousBackup);
                }
            }
            if *desired_requires_admin {
                roles.push(PathRole::DesiredDestination);
            }
        },
        ActionKindV1::RemoveManagedFile { requires_admin, .. } => {
            if *requires_admin {
                roles.push(PathRole::Destination);
                roles.push(PathRole::Rollback);
            }
        },
        ActionKindV1::RemoveManagedFileWithBackup { requires_admin, .. } => {
            if *requires_admin {
                roles.push(PathRole::Destination);
                roles.push(PathRole::Backup);
                roles.push(PathRole::Rollback);
            }
        },
        ActionKindV1::ForceRemoveManagedFile { persistent_backup, requires_admin, .. } => {
            if *requires_admin {
                roles.push(PathRole::Destination);
                roles.push(PathRole::Rollback);
                if persistent_backup.is_some() {
                    roles.push(PathRole::Backup);
                }
            }
        },
        _ => {},
    }
    proof {
        assert(roles@ =~= admin_roles(*kind, receipt));
    }
    roles
}

fn paths_of_roles(kind: &ActionKindV1, roles: &Vec<PathRole>) -> (paths: Vec<String>)
    ensures
        texts(paths@) == role_paths(*kind, roles@),
{
    let mut paths: Vec<String> = Vec::new();
    let mut i: usize = 0;
    while i < roles.len()
        invariant
            i <= roles.len(),
            texts(paths@) == role_paths(*kind, roles@.take(i as int)),
        decreases roles.len() - i,
    {
        let ghost before = paths@;
        let path: String = match kind.role_path(roles[i]) {
            Some(path) => path.clone(),
            None => String::new(),
        };
        let ghost added = path@;
        paths.push(path);
        proof {
            assert(added == role_or_empty(*kind, roles@[i as int]));
            assert(texts(paths@) =~= texts(before).push(added));
            assert(roles@.take(i as int + 1) =~= roles@.take(i as int).push(roles@[i as int]));
            assert(role_paths(*kind, roles@.take(i as int + 1)) =~= role_paths(
                *kind,
                roles@.take(i as int),
            ).push(added));
        }
        i += 1;
    }
    proof {
        assert(roles@.take(roles@.len() as int) =~= roles@);
    }
    paths
}

/// A set of permissions with those for the given accesses put in.
pub open spec fn with_accesses(
    context: RuntimeContext,
    kind: ActionKindV1,
    needs: Seq<RoleAccess>,
    required: Set<PermissionView>,
) -> Set<PermissionView>
    decreases needs.len(),
{
    if needs.len() == 0 {
        required
    } else {
        with_accesses(context, kind, needs.drop_last(), required).insert(
            access_permission(context, kind, needs.last()),
        )
    }
}

/// The permissions after one decision: what it needs, the manifest where it puts
/// a receipt back, and administrator rights where a part that needs them is
/// among the paths.
pub open spec fn permissions_after(
    context: RuntimeContext,
    kind: ActionKindV1,
    receipt: bool,
    decision: DecisionView,
    before: Set<PermissionView>,
) -> Set<PermissionView> {
    let needed = with_accesses(context, kind, decision.needs, before);
    let receipted = if decision.restores_receipt {
        needed.insert(manifest_permission(context))
    } else {
        needed
    };
    if permissions_touch(
        receipted,
        review_texts(context, role_paths(kind, admin_roles(kind, receipt))),
    ) {
        receipted.insert(PermissionView::Administrator)
    } else {
        receipted
    }
}

/// The step of a plan for one action.
pub open spec fn recovery_step(
    action: DeclarativeActionV1,
    done: PlanActionV1,
    code: RecoveryCode,
) -> PlanStepView {
    PlanStepView {
        target: action.target@,
        resource: Some(action.resource@),
        action: done,
        diagnostic_codes: seq![code.text()],
    }
}

/// Whether the receipts contradict an interrupted action.
pub open spec fn action_conflicts(
    entries: Seq<AppEntryView>,
    action: DeclarativeActionV1,
    committed: bool,
) -> bool {
    if removes_managed(action.kind) {
        removal_conflicts(entries, action, committed)
    } else {
        receipt_conflicts(entries, action)
    }
}

/// Whether the receipts contradict the interrupted action.
pub fn receipts_contradict(
    manifest: &AppManifest,
    action: &DeclarativeActionV1,
    committed: bool,
) -> (result: bool)
    ensures
        result == action_conflicts(manifest@, *action, committed),
{
    if is_app_removal_action(&action.kind) {
        removal_receipt_conflict(manifest, action, committed)
    } else {
        conflicting_app_receipt(manifest, action)
    }
}

/// How many paths are looked at for an action: none where the receipts
/// contradict it.
pub open spec fn findings_due(
    entries: Seq<AppEntryView>,
    action: DeclarativeActionV1,
    committed: bool,
) -> nat {
    if action_conflicts(entries, action, committed) {
        0
    } else {
        observed_roles(action.kind).len()
    }
}

/// What a planner knows after one more action.
pub open spec fn planner_next(
    context: RuntimeContext,
    entries: Seq<AppEntryView>,
    action: DeclarativeActionV1,
    committed: bool,
    files: Seq<FileView>,
    before: PlannerView,
) -> Result<PlannerView, JsonFault> {
    if action_conflicts(entries, action, committed) {
        Ok(
            PlannerView {
                steps: before.steps.push(
                    recovery_step(action, PlanActionV1::Blocked, RecoveryCode::ReceiptConflict),
                ),
                blocked: true,
                ..before
            },
        )
    } else {
        let receipt = receipt_matches(entries, action);
        match recovery_decision(
            action.kind,
            committed,
            receipt,
            previous_receipt_matches(entries, action),
            files,
        ) {
            Err(fault) => Err(fault),
            Ok(decision) => Ok(
                PlannerView {
                    required: permissions_after(
                        context,
                        action.kind,
                        receipt,
                        decision,
                        before.required,
                    ),
                    steps: before.steps.push(
                        recovery_step(action, decision.action, decision.code),
                    ),
                    blocked: before.blocked || decision.action == PlanActionV1::Blocked,
                    observed: before.observed + findings(action, files),
                },
            ),
        }
    }
}

/// What a planner knows before the first action.
pub open spec fn planner_start(
    context: RuntimeContext,
    journal_bytes: Seq<u8>,
    manifest_bytes: Option<Seq<u8>>,
) -> PlannerView {
    PlannerView {
        required: Set::empty().insert(journal_permission(context)),
        steps: Seq::empty(),
        blocked: false,
        observed: seq![
            ("operation"@, encode_utf8("app-recovery"@)),
            ("journal"@, journal_bytes),
            (
                "app-manifest"@,
                match manifest_bytes {
                    Some(bytes) => bytes,
                    None => encode_utf8("missing"@),
                },
            ),
        ],
    }
}

/// The step that says what becomes of the journal.
pub open spec fn journal_step(blocked: bool) -> PlanStepView {
    PlanStepView {
        target: "app"@,
        resource: Some("operation-journal"@),
        action: if blocked {
            PlanActionV1::Preserve
        } else {
            PlanActionV1::Remove
        },
        diagnostic_codes: seq![
            (if blocked {
                RecoveryCode::JournalPreserved
            } else {
                RecoveryCode::ClearJournal
            }).text(),
        ],
    }
}

/// Makes a recovery plan, action by action.
#[derive(Clone, Debug)]
pub struct RecoveryPlanner {
    pub required: PermissionSetV1,
    pub steps: Vec<PlanStepV1>,
    pub blocked: bool,
    pub state: SnapshotDigestBuilder,
}

impl View for RecoveryPlanner {
    type V = PlannerView;

    open spec fn view(&self) -> PlannerView {
        PlannerView {
            required: self.required@,
            steps: step_views(self.steps@),
            blocked: self.blocked,
            observed: observation_views(self.state.observations@),
        }
    }
}

fn step_for(action: &DeclarativeActionV1, done: PlanActionV1, code: RecoveryCode) -> (step:
    PlanStepV1)
    ensures
        step@ == recovery_step(*action, done, code),
{
    let step = PlanStepV1::new(
        action.target.as_str(),
        Some(action.resource.as_str()),
        done,
    ).with_diagnostic_code(code.as_str());
    proof {
        assert(step@.diagnostic_codes =~= seq![code.text()]);
    }
    step
}

impl RecoveryPlanner {
    pub open spec fn well_formed(&self) -> bool {
        self.required.well_formed() && self.state.domain@ == "state:app-recovery"@
    }

    /// Starts a plan for the journal and the manifest that were read.
    pub fn start(context: &RuntimeContext, journal_bytes: &[u8], manifest_bytes: Option<&[u8]>) -> (
        planner: RecoveryPlanner)
        ensures
            planner.well_formed(),
            planner@ == planner_start(
                *context,
                journal_bytes@,
                match manifest_bytes {
                    Some(bytes) => Some(bytes@),
                    None => None,
                },
            ),
    {
        let mut state = SnapshotDigestV1::builder("state:app-recovery");
        let operation: &[u8] = PlanOperationV1::AppRecovery.as_str().as_bytes();
        state.add_observation("operation", operation);
        state.add_observation("journal", journal_bytes);
        match manifest_bytes {
            Some(bytes) => {
                state.add_observation("app-manifest", bytes);
            },
            None => {
                state.add_observation("app-manifest", "missing".as_bytes());
            },
        }
        let mut required = PermissionSetV1::new();
        required.insert(
            PermissionV1::Filesystem {
                access: FilesystemAccessV1::Remove,
                path: review_path(context, journal_path(context).as_str()),
            },
        );
        let planner = RecoveryPlanner { required, steps: Vec::new(), blocked: false, state };
        proof {
            let bytes = match manifest_bytes {
                Some(bytes) => Some(bytes@),
                None => None,
            };
            assert(planner@.observed =~= planner_start(
                *context,
                journal_bytes@,
                bytes,
            ).observed);
            assert(planner@.steps =~= Seq::empty());
        }
        planner
    }

    fn need(&mut self, context: &RuntimeContext, kind: &ActionKindV1, needs: &Vec<RoleAccess>)
        requires
            old(self).well_formed(),
        ensures
            final(self).well_formed(),
            final(self)@ == (PlannerView {
                required: with_accesses(*context, *kind, needs@, old(self)@.required),
                ..old(self)@
            }),
    {
        let ghost before = self@;
        let mut i: usize = 0;
        proof {
            assert(needs@.take(0) =~= Seq::<RoleAccess>::empty());
        }
        while i < needs.len()
            invariant
                i <= needs.len(),
                self.well_formed(),
                self@ == (PlannerView {
                    required: with_accesses(
                        *context,
                        *kind,
                        needs@.take(i as int),
                        before.required,
                    ),
                    ..before
                }),
            decreases needs.len() - i,
        {
            proof {
                assert(needs@.take(i as int + 1).drop_last() =~= needs@.take(i as int));
                assert(needs@.take(i as int + 1).last() == needs@[i as int]);
            }
            let path: String = match kind.role_path(needs[i].role) {
                Some(path) => path.clone(),
                None => String::new(),
            };
            self.required.insert(
                PermissionV1::Filesystem {
                    access: needs[i].access,
                    path: review_path(context, path.as_str()),
                },
            );
            i += 1;
        }
        proof {
            assert(needs@.take(needs@.len() as int) =~= needs@);
        }
    }

    fn record(&mut self, action: &DeclarativeActionV1, files: &Vec<RecoveryFileObservation>)
        requires
            old(self).well_formed(),
            files@.len() == observed_roles(action.kind).len(),
        ensures
            final(self).well_formed(),
            final(self)@ == (PlannerView {
                observed: old(self)@.observed + findings(*action, file_views(files@)),
                ..old(self)@
            }),
    {
        let roles = roles_to_observe(&action.kind);
        let ghost before = self@;
        let ghost all = findings(*action, file_views(files@));
        let mut i: usize = 0;
        proof {
            assert(before.observed + all.take(0) =~= before.observed);
        }
        while i < roles.len()
            invariant
                i <= roles.len(),
                roles@ == observed_roles(action.kind),
                files@.len() == roles@.len(),
                all == findings(*action, file_views(files@)),
                self.well_formed(),
                self@ == (PlannerView { observed: before.observed + all.take(i as int), ..before }),
            decreases roles.len() - i,
        {
            let mut label: String = label_of_role(&action.kind, roles[i]).to_owned();
            label.append(action.action_id.as_str());
            let identity = files[i].identity();
            self.state.add_observation(label.as_str(), identity.as_str().as_bytes());
            proof {
                assert(file_views(files@)[i as int] == files@[i as int]@);
                assert(all.take(i as int + 1) =~= all.take(i as int).push(all[i as int]));
                assert(before.observed + all.take(i as int + 1) =~= (before.observed + all.take(
                    i as int,
                )).push(all[i as int]));
            }
            i += 1;
        }
        proof {
            assert(all.take(all.len() as int) =~= all);
        }
    }

    /// Takes one more action into the plan. `files` holds what was found for the
    /// parts of the action; nothing where the receipts contradict it.
    pub fn advance(
        &mut self,
        context: &RuntimeContext,
        manifest: &AppManifest,
        action: &DeclarativeActionV1,
        committed: bool,
        files: &Vec<RecoveryFileObservation>,
    ) -> (result: Result<(), RecoveryPlanError>)
        requires
            old(self).well_formed(),
        ensures
            final(self).well_formed(),
            result == Err::<(), RecoveryPlanError>(RecoveryPlanError::ObservationMismatch)
                <==> files@.len() != findings_due(manifest@, *action, committed),
            files@.len() == findings_due(manifest@, *action, committed) ==> match planner_next(
                *context,
                manifest@,
                *action,
                committed,
                file_views(files@),
                old(self)@,
            ) {
                Ok(next) => result is Ok && final(self)@ == next,
                Err(fault) => result == Err::<(), RecoveryPlanError>(
                    RecoveryPlanError::Json { fault },
                ) && final(self)@ == old(self)@,
            },
    {
        let ghost before = self@;
        if receipts_contradict(manifest, action, committed) {
            if files.len() != 0 {
                return Err(RecoveryPlanError::ObservationMismatch);
            }
            self.blocked = true;
            self.push_step(step_for(action, PlanActionV1::Blocked, RecoveryCode::ReceiptConflict));
            return Ok(());
        }
        let roles = roles_to_observe(&action.kind);
        if files.len() != roles.len() {
            return Err(RecoveryPlanError::ObservationMismatch);
        }
        let receipt = matching_app_receipt(manifest, action);
        let previous_receipt = matching_previous_app_receipt(manifest, action);
        let decision = match decide_recovery(
            &action.kind,
            committed,
            receipt,
            previous_receipt,
            files,
        ) {
            Ok(decision) => decision,
            Err(fault) => return Err(RecoveryPlanError::Json { fault }),
        };
        self.record(action, files);
        self.need(context, &action.kind, &decision.needs);
        if decision.restores_receipt {
            self.required.insert(
                PermissionV1::Filesystem {
                    access: FilesystemAccessV1::Write,
                    path: review_path(context, context.manifest_path().as_str()),
                },
            );
        }
        let privileged = privileged_roles(&action.kind, receipt);
        let paths = paths_of_roles(&action.kind, &privileged);
        if recovery_permissions_touch_paths(&self.required, context, &paths) {
            self.required.insert(PermissionV1::Administrator);
        }
        if decision.action == PlanActionV1::Blocked {
            self.blocked = true;
        }
        self.push_step(step_for(action, decision.action, decision.code));
        Ok(())
    }

    fn push_step(&mut self, step: PlanStepV1)
        requires
            old(self).well_formed(),
        ensures
            final(self).well_formed(),
            final(self)@ == (PlannerView { steps: old(self)@.steps.push(step@), ..old(self)@ }),
    {
        let ghost before = self.steps@;
        self.steps.push(step);
        proof {
            assert(step_views(self.steps@) =~= step_views(before).push(step@));
        }
    }

    /// Ends the plan: the journal is removed, or preserved where something blocks.
    pub fn finish(self, preset: SnapshotDigestV1) -> (plan: PlanV1)
        requires
            self.well_formed(),
        ensures
            plan.operation == PlanOperationV1::AppRecovery,
            plan.inputs@ == (
                preset@,
                DigestView {
                    domain: "state:app-recovery"@,
                    value: content_hash(observation_bytes(self@.observed)),
                },
            ),
            step_views(plan.steps@) == self@.steps.push(journal_step(self.blocked)),
            plan.permissions.required@ == self@.required,
            plan.permissions.missing_declarations.items@.len() == 0,
            plan.permissions.uncomputable_codes@.len() == 0,
    {
        let mut planner = self;
        let blocked = planner.blocked;
        let (done, code) = if blocked {
            (PlanActionV1::Preserve, RecoveryCode::JournalPreserved)
        } else {
            (PlanActionV1::Remove, RecoveryCode::ClearJournal)
        };
        let step = PlanStepV1::new("app", Some("operation-journal"), done).with_diagnostic_code(
            code.as_str(),
        );
        proof {
            assert(step@.diagnostic_codes =~= seq![code.text()]);
            assert(step@ == journal_step(blocked));
        }
        planner.push_step(step);
        let granted = planner.required.copied();
        let inputs = PlanInputsV1 { preset, state: planner.state.finish() };
        PlanV1::new(
            PlanOperationV1::AppRecovery,
            inputs,
            planner.steps,
            planner.required,
            &granted,
            Vec::new(),
        )
    }
}

/// Whether an action of a journal is past the point at which its receipt was
/// durably gone.
pub open spec fn is_receipt_committed(journal: AppOperationJournalV1, index: int) -> bool {
    journal.state_of(journal.action_ir.actions@[index].action_id@) == Some(
        JournalActionStateV1::ReceiptCommitted,
    )
}

/// The views of the findings for each action.
pub open spec fn all_file_views(files: Seq<Vec<RecoveryFileObservation>>) -> Seq<Seq<FileView>> {
    files.map_values(|list: Vec<RecoveryFileObservation>| file_views(list@))
}

/// What a planner knows after the first `count` actions of a journal.
pub open spec fn planner_after(
    context: RuntimeContext,
    entries: Seq<AppEntryView>,
    journal: AppOperationJournalV1,
    files: Seq<Seq<FileView>>,
    start: PlannerView,
    count: nat,
) -> Result<PlannerView, RecoveryPlanError>
    decreases count,
{
    if count == 0 {
        Ok(start)
    } else {
        let index = count - 1;
        let action = journal.action_ir.actions@[index];
        match planner_after(context, entries, journal, files, start, index as nat) {
            Err(error) => Err(error),
            Ok(before) => if journal.state_of(action.action_id@) is None {
                Err(RecoveryPlanError::Journal { error: JournalError::ActionNotFound })
            } else if files[index].len() != findings_due(
                entries,
                action,
                is_receipt_committed(journal, index),
            ) {
                Err(RecoveryPlanError::ObservationMismatch)
            } else {
                match planner_next(
                    context,
                    entries,
                    action,
                    is_receipt_committed(journal, index),
                    files[index],
                    before,
                ) {
                    Ok(next) => Ok(next),
                    Err(fault) => Err(RecoveryPlanError::Json { fault }),
                }
            },
        }
    }
}

/// Whether a plan is what a planner ends with.
pub open spec fn is_plan_of(plan: PlanV1, preset: DigestView, planner: PlannerView) -> bool {
    &&& plan.operation == PlanOperationV1::AppRecovery
    &&& plan.inputs@ == (
        preset,
        DigestView {
            domain: "state:app-recovery"@,
            value: content_hash(observation_bytes(planner.observed)),
        },
    )
    &&& step_views(plan.steps@) == planner.steps.push(journal_step(planner.blocked))
    &&& plan.permissions.required@ == planner.required
    &&& plan.permissions.missing_declarations.items@.len() == 0
    &&& plan.permissions.uncomputable_codes@.len() == 0
}

/// The recovery plan of a journal: `files` holds, for each action, what was found
/// for its parts.
pub fn plan_app_operation_recovery(
    context: &RuntimeContext,
    journal: &AppOperationJournalV1,
    journal_bytes: &[u8],
    manifest: &AppManifest,
    manifest_bytes: Option<&[u8]>,
    files: &Vec<Vec<RecoveryFileObservation>>,
    preset: SnapshotDigestV1,
) -> (result: Result<PlanV1, RecoveryPlanError>)
    ensures
        files@.len() != journal.action_ir.actions@.len() ==> result is Err && result->Err_0
            == RecoveryPlanError::ObservationMismatch,
        files@.len() == journal.action_ir.actions@.len() ==> match planner_after(
            *context,
            manifest@,
            *journal,
            all_file_views(files@),
            planner_start(
                *context,
                journal_bytes@,
                match manifest_bytes {
                    Some(bytes) => Some(bytes@),
                    None => None,
                },
            ),
            journal.action_ir.actions@.len(),
        ) {
            Ok(planner) => result is Ok && is_plan_of(result->Ok_0, preset@, planner),
            Err(error) => result is Err && result->Err_0 == error,
        },
{
    if files.len() != journal.action_ir.actions.len() {
        return Err(RecoveryPlanError::ObservationMismatch);
    }
    let mut planner = RecoveryPlanner::start(context, journal_bytes, manifest_bytes);
    let ghost start = planner@;
    let ghost views = all_file_views(files@);
    let mut i: usize = 0;
    while i < journal.action_ir.actions.len()
        invariant
            i <= journal.action_ir.actions.len(),
            files@.len() == journal.action_ir.actions@.len(),
            views == all_file_views(files@),
            start == planner_start(
                *context,
                journal_bytes@,
                match manifest_bytes {
                    Some(bytes) => Some(bytes@),
                    None => None,
                },
            ),
            planner.well_formed(),
            planner_after(*context, manifest@, *journal, views, start, i as nat) == Ok::<
                PlannerView,
                RecoveryPlanError,
            >(planner@),
        decreases journal.action_ir.actions.len() - i,
    {
        let action = &journal.action_ir.actions[i];
        let ghost here = planner_after(
            *context,
            manifest@,
            *journal,
            views,
            start,
            (i + 1) as nat,
        );
        proof {
            assert(views[i as int] == file_views(files@[i as int]@));
            assert(views[i as int].len() == files@[i as int]@.len());
        }
        let state = match journal.action_state(action.action_id.as_str()) {
            Ok(state) => state,
            Err(error) => {
                proof {
                    lemma_planner_error_stays(
                        *context,
                        manifest@,
                        *journal,
                        views,
                        start,
                        (i + 1) as nat,
                        journal.action_ir.actions@.len(),
                    );
                }
                return Err(RecoveryPlanError::Journal { error });
            },
        };
        let committed = state == JournalActionStateV1::ReceiptCommitted;
        let step = planner.advance(context, manifest, action, committed, &files[i]);
        if let Err(error) = step {
            proof {
                assert(here == Err::<PlannerView, RecoveryPlanError>(error));
                lemma_planner_error_stays(
                    *context,
                    manifest@,
                    *journal,
                    views,
                    start,
                    (i + 1) as nat,
                    journal.action_ir.actions@.len(),
                );
            }
            return Err(error);
        }
        i += 1;
    }
    Ok(planner.finish(preset))
}

/// Once planning has failed it stays failed.
pub proof fn lemma_planner_error_stays(
    context: RuntimeContext,
    entries: Seq<AppEntryView>,
    journal: AppOperationJournalV1,
    files: Seq<Seq<FileView>>,
    start: PlannerView,
    count: nat,
    total: nat,
)
    requires
        count <= total,
        planner_after(context, entries, journal, files, start, count) is Err,
    ensures
        planner_after(context, entries, journal, files, start, total) == planner_after(
            context,
            entries,
            journal,
            files,
            start,
            count,
        ),
    decreases total,
{
    if count < total {
        lemma_planner_error_stays(
            context,
            entries,
            journal,
            files,
            start,
            count,
            (total - 1) as nat,
        );
    }
}

/// A planner is blocked exactly where one of its steps is.
pub proof fn law_blocked_iff_some_step_is(
    context: RuntimeContext,
    entries: Seq<AppEntryView>,
    journal: AppOperationJournalV1,
    files: Seq<Seq<FileView>>,
    journal_bytes: Seq<u8>,
    manifest_bytes: Option<Seq<u8>>,
    count: nat,
)
    ensures
        ({
            let start = planner_start(context, journal_bytes, manifest_bytes);
            match planner_after(context, entries, journal, files, start, count) {
                Ok(planner) => planner.steps.len() == count && (planner.blocked <==> exists|i: int|
                    0 <= i < planner.steps.len() && (#[trigger] planner.steps[i]).action
                        == PlanActionV1::Blocked),
                Err(_) => true,
            }
        }),
    decreases count,
{
    if count > 0 {
        law_blocked_iff_some_step_is(
            context,
            entries,
            journal,
            files,
            journal_bytes,
            manifest_bytes,
            (count - 1) as nat,
        );
        let start = planner_start(context, journal_bytes, manifest_bytes);
        let earlier = planner_after(context, entries, journal, files, start, (count - 1) as nat);
        let now = planner_after(context, entries, journal, files, start, count);
        if now is Ok {
            let before = earlier->Ok_0;
            let after = now->Ok_0;
            assert(after.steps.drop_last() =~= before.steps);
            assert forall|i: int| 0 <= i < before.steps.len() implies before.steps[i]
                == after.steps[i] by {}
            if before.blocked {
                let i = choose|i: int|
                    0 <= i < before.steps.len() && (#[trigger] before.steps[i]).action
                        == PlanActionV1::Blocked;
                assert(after.steps[i].action == PlanActionV1::Blocked);
            }
            if after.blocked && !before.blocked {
                assert(after.steps[count - 1].action == PlanActionV1::Blocked);
            }
            if exists|i: int|
                0 <= i < after.steps.len() && (#[trigger] after.steps[i]).action
                    == PlanActionV1::Blocked {
                let i = choose|i: int|
                    0 <= i < after.steps.len() && (#[trigger] after.steps[i]).action
                        == PlanActionV1::Blocked;
                if i < count - 1 {
                    assert(before.steps[i].action == PlanActionV1::Blocked);
                }
            }
        }
    }
}

/// A recovery plan can be approved exactly where nothing blocks it, and then it
/// removes the journal; otherwise it preserves the journal.
pub proof fn law_plan_is_ready_iff_unblocked(plan: PlanV1, preset: DigestView, planner: PlannerView)
    requires
        is_plan_of(plan, preset, planner),
        planner.blocked <==> exists|i: int|
            0 <= i < planner.steps.len() && (#[trigger] planner.steps[i]).action
                == PlanActionV1::Blocked,
    ensures
        plan.ready() <==> !planner.blocked,
        step_views(plan.steps@).last() == journal_step(planner.blocked),
{
    let views = step_views(plan.steps@);
    assert forall|i: int| 0 <= i < plan.steps@.len() implies views[i] == plan.steps@[i]@ by {}
    if planner.blocked {
        let i = choose|i: int|
            0 <= i < planner.steps.len() && (#[trigger] planner.steps[i]).action
                == PlanActionV1::Blocked;
        assert(views[i] == planner.steps[i]);
        assert(plan.steps@[i].action == PlanActionV1::Blocked);
    } else {
        assert forall|i: int| 0 <= i < plan.steps@.len() implies (#[trigger] plan.steps@[i]).action
            != PlanActionV1::Blocked by {
            assert(views[i] == plan.steps@[i]@);
            if i < planner.steps.len() {
                assert(planner.steps[i] == views[i]);
            }
        }
    }
}

} // verus!
