//! Reviewed plans: the steps of an operation, the permissions it needs, and the
//! approval that binds an execution to one reviewed plan.

use vstd::prelude::*;
use vstd::string::*;
use vstd::utf8::encode_utf8;

use crate::content::{content_hash, hash_content};
use crate::text::{same_text, texts};

verus! {

/// The approval schema that this library writes and reads.
pub const PLAN_APPROVAL_SCHEMA_VERSION: u32 = 1;

/// What a plan is for.
#[derive(Clone, Copy, Debug, PartialEq, Eq, Structural)]
pub enum PlanOperationV1 {
    Install,
    Uninstall,
    Upgrade,
    AppRecovery,
    SysBootstrap,
}

impl PlanOperationV1 {
    pub open spec fn text(self) -> Seq<char> {
        match self {
            PlanOperationV1::Install => "install"@,
            PlanOperationV1::Uninstall => "uninstall"@,
            PlanOperationV1::Upgrade => "upgrade"@,
            PlanOperationV1::AppRecovery => "app-recovery"@,
            PlanOperationV1::SysBootstrap => "sys-bootstrap"@,
        }
    }

    /// The stable name of the operation.
    pub fn as_str(self) -> (name: &'static str)
        ensures
            name@ == self.text(),
    {
        match self {
            PlanOperationV1::Install => "install",
            PlanOperationV1::Uninstall => "uninstall",
            PlanOperationV1::Upgrade => "upgrade",
            PlanOperationV1::AppRecovery => "app-recovery",
            PlanOperationV1::SysBootstrap => "sys-bootstrap",
        }
    }
}

/// What a step does to its resource.
#[derive(Clone, Copy, Debug, PartialEq, Eq, Structural)]
pub enum PlanActionV1 {
    Nothing,
    Create,
    Update,
    Remove,
    Execute,
    Preserve,
    Blocked,
}

#[derive(Clone, Copy, Debug, PartialEq, Eq, Structural)]
pub enum FilesystemAccessV1 {
    Read,
    Write,
    Remove,
    Execute,
}

#[derive(Clone, Copy, Debug, PartialEq, Eq, Structural)]
pub enum EnvironmentSensitivityV1 {
    Plain,
    Secret,
}

#[derive(Clone, Debug)]
pub enum NetworkScopeV1 {
    Any,
    Host(String),
}

/// One permission that an operation needs.
#[derive(Clone, Debug)]
pub enum PermissionV1 {
    Filesystem { access: FilesystemAccessV1, path: String },
    Network { scope: NetworkScopeV1 },
    Command { program: String },
    Administrator,
    Environment { name: String, sensitivity: EnvironmentSensitivityV1 },
    System { capability: String, resource: Option<String> },
}

/// A permission by the characters it holds.
pub ghost enum PermissionView {
    Filesystem { access: FilesystemAccessV1, path: Seq<char> },
    NetworkAny,
    NetworkHost { host: Seq<char> },
    Command { program: Seq<char> },
    Administrator,
    Environment { name: Seq<char>, sensitivity: EnvironmentSensitivityV1 },
    System { capability: Seq<char>, resource: Option<Seq<char>> },
}

/// The characters of a text that may be absent.
pub open spec fn optional_text(text: Option<String>) -> Option<Seq<char>> {
    match text {
        Some(text) => Some(text@),
        None => None,
    }
}

/// Whether two texts that may be absent are both absent or the same.
pub fn same_optional_text(left: &Option<String>, right: &Option<String>) -> (same: bool)
    ensures
        same == (optional_text(*left) == optional_text(*right)),
{
    match (left, right) {
        (Some(left), Some(right)) => same_text(left.as_str(), right.as_str()),
        (None, None) => true,
        _ => false,
    }
}

impl View for PermissionV1 {
    type V = PermissionView;

    open spec fn view(&self) -> PermissionView {
        match *self {
            PermissionV1::Filesystem { access, path } => PermissionView::Filesystem {
                access,
                path: path@,
            },
            PermissionV1::Network { scope } => match scope {
                NetworkScopeV1::Any => PermissionView::NetworkAny,
                NetworkScopeV1::Host(host) => PermissionView::NetworkHost { host: host@ },
            },
            PermissionV1::Command { program } => PermissionView::Command { program: program@ },
            PermissionV1::Administrator => PermissionView::Administrator,
            PermissionV1::Environment { name, sensitivity } => PermissionView::Environment {
                name: name@,
                sensitivity,
            },
            PermissionV1::System { capability, resource } => PermissionView::System {
                capability: capability@,
                resource: optional_text(resource),
            },
        }
    }
}

impl PermissionV1 {
    /// Whether the two permissions are the same.
    pub fn same(&self, other: &PermissionV1) -> (result: bool)
        ensures
            result == (self@ == other@),
    {
        match (self, other) {
            (
                PermissionV1::Filesystem { access, path },
                PermissionV1::Filesystem { access: other_access, path: other_path },
            ) => *access == *other_access && same_text(path.as_str(), other_path.as_str()),
            (PermissionV1::Network { scope }, PermissionV1::Network { scope: other_scope }) => {
                match (scope, other_scope) {
                    (NetworkScopeV1::Any, NetworkScopeV1::Any) => true,
                    (NetworkScopeV1::Host(host), NetworkScopeV1::Host(other_host)) => same_text(
                        host.as_str(),
                        other_host.as_str(),
                    ),
                    _ => false,
                }
            },
            (PermissionV1::Command { program }, PermissionV1::Command { program: other_program }) =>
            same_text(program.as_str(), other_program.as_str()),
            (PermissionV1::Administrator, PermissionV1::Administrator) => true,
            (
                PermissionV1::Environment { name, sensitivity },
                PermissionV1::Environment { name: other_name, sensitivity: other_sensitivity },
            ) => same_text(name.as_str(), other_name.as_str()) && *sensitivity
                == *other_sensitivity,
            (
                PermissionV1::System { capability, resource },
                PermissionV1::System { capability: other_capability, resource: other_resource },
            ) => same_text(capability.as_str(), other_capability.as_str()) && same_optional_text(
                resource,
                other_resource,
            ),
            _ => false,
        }
    }

    /// A copy of the permission.
    pub fn copied(&self) -> (copy: PermissionV1)
        ensures
            copy == *self,
    {
        match self {
            PermissionV1::Filesystem { access, path } => PermissionV1::Filesystem {
                access: *access,
                path: path.clone(),
            },
            PermissionV1::Network { scope } => match scope {
                NetworkScopeV1::Any => PermissionV1::Network { scope: NetworkScopeV1::Any },
                NetworkScopeV1::Host(host) => PermissionV1::Network {
                    scope: NetworkScopeV1::Host(host.clone()),
                },
            },
            PermissionV1::Command { program } => PermissionV1::Command { program: program.clone() },
            PermissionV1::Administrator => PermissionV1::Administrator,
            PermissionV1::Environment { name, sensitivity } => PermissionV1::Environment {
                name: name.clone(),
                sensitivity: *sensitivity,
            },
            PermissionV1::System { capability, resource } => PermissionV1::System {
                capability: capability.clone(),
                resource: match resource {
                    Some(resource) => Some(resource.clone()),
                    None => None,
                },
            },
        }
    }
}

/// The views of a list of permissions.
pub open spec fn permission_views(items: Seq<PermissionV1>) -> Seq<PermissionView> {
    items.map_values(|item: PermissionV1| item@)
}

proof fn lemma_push_permission(list: Seq<PermissionView>, item: PermissionView)
    ensures
        list.push(item).to_set() == list.to_set().insert(item),
{
    let after = list.push(item);
    assert forall|v: PermissionView| after.to_set().contains(v) <==> list.to_set().insert(
        item,
    ).contains(v) by {
        if after.to_set().contains(v) {
            let j = choose|j: int| 0 <= j < after.len() && after[j] == v;
            if j < list.len() {
                assert(list[j] == v);
            }
        }
        if v == item {
            assert(after[list.len() as int] == v);
        }
        if list.to_set().contains(v) {
            let j = choose|j: int| 0 <= j < list.len() && list[j] == v;
            assert(after[j] == v);
        }
    }
    assert(after.to_set() =~= list.to_set().insert(item));
}

/// A set of permissions: no permission stands in it twice.
#[derive(Clone, Debug)]
pub struct PermissionSetV1 {
    pub items: Vec<PermissionV1>,
}

impl View for PermissionSetV1 {
    type V = Set<PermissionView>;

    open spec fn view(&self) -> Set<PermissionView> {
        permission_views(self.items@).to_set()
    }
}

impl PermissionSetV1 {
    /// No permission occurs twice.
    pub open spec fn well_formed(&self) -> bool {
        permission_views(self.items@).no_duplicates()
    }

    pub fn new() -> (set: PermissionSetV1)
        ensures
            set@ == Set::<PermissionView>::empty(),
            set.well_formed(),
    {
        let set = PermissionSetV1 { items: Vec::new() };
        proof {
            assert(set@ =~= Set::<PermissionView>::empty());
        }
        set
    }

    /// Whether the permission is in the set.
    pub fn contains(&self, permission: &PermissionV1) -> (found: bool)
        ensures
            found == self@.contains(permission@),
    {
        let mut i: usize = 0;
        while i < self.items.len()
            invariant
                i <= self.items.len(),
                forall|j: int| 0 <= j < i ==> self.items@[j]@ != permission@,
            decreases self.items.len() - i,
        {
            if self.items[i].same(permission) {
                proof {
                    assert(permission_views(self.items@)[i as int] == permission@);
                }
                return true;
            }
            i += 1;
        }
        proof {
            assert forall|j: int| 0 <= j < permission_views(self.items@).len() implies
                permission_views(self.items@)[j] != permission@ by {
                assert(permission_views(self.items@)[j] == self.items@[j]@);
            }
        }
        false
    }

    /// Adds the permission, unless it is there already.
    pub fn insert(&mut self, permission: PermissionV1)
        requires
            old(self).well_formed(),
        ensures
            final(self)@ == old(self)@.insert(permission@),
            final(self).well_formed(),
    {
        if self.contains(&permission) {
            proof {
                assert(self@.insert(permission@) =~= self@);
            }
            return ;
        }
        let ghost before = permission_views(self.items@);
        let ghost added = permission@;
        self.items.push(permission);
        proof {
            let after = permission_views(self.items@);
            assert(after =~= before.push(added));
            assert(after.to_set() =~= before.to_set().insert(added)) by {
                assert forall|v: PermissionView| after.to_set().contains(v) <==> before.to_set()
                    .insert(added)
                    .contains(v) by {
                    if before.to_set().insert(added).contains(v) {
                        if v == added {
                            assert(after[before.len() as int] == v);
                        } else {
                            let j = choose|j: int| 0 <= j < before.len() && before[j] == v;
                            assert(after[j] == v);
                        }
                    }
                    if after.to_set().contains(v) {
                        let j = choose|j: int| 0 <= j < after.len() && after[j] == v;
                        if j < before.len() {
                            assert(before[j] == v);
                        }
                    }
                }
            }
            assert forall|i: int, j: int|
                0 <= i < after.len() && 0 <= j < after.len() && i != j implies after[i]
                != after[j] by {
                if i < before.len() && j < before.len() {
                    assert(before[i] != before[j]);
                } else if i < before.len() {
                    assert(before.to_set().contains(before[i]));
                } else {
                    assert(before.to_set().contains(before[j]));
                }
            }
        }
    }

    /// Whether every permission of this set is in `granted`.
    pub fn is_covered_by(&self, granted: &PermissionSetV1) -> (covered: bool)
        ensures
            covered == self@.subset_of(granted@),
    {
        let mut i: usize = 0;
        while i < self.items.len()
            invariant
                i <= self.items.len(),
                forall|j: int| 0 <= j < i ==> granted@.contains(self.items@[j]@),
            decreases self.items.len() - i,
        {
            if !granted.contains(&self.items[i]) {
                proof {
                    assert(permission_views(self.items@)[i as int] == self.items@[i as int]@);
                    assert(self@.contains(self.items@[i as int]@));
                }
                return false;
            }
            i += 1;
        }
        proof {
            assert forall|v: PermissionView| self@.contains(v) implies granted@.contains(v) by {
                let j = choose|j: int|
                    0 <= j < permission_views(self.items@).len() && permission_views(
                        self.items@,
                    )[j] == v;
                assert(permission_views(self.items@)[j] == self.items@[j]@);
            }
        }
        true
    }

    /// The permissions of this set that are not in `granted`.
    pub fn without(&self, granted: &PermissionSetV1) -> (rest: PermissionSetV1)
        ensures
            rest.well_formed(),
            rest@ == self@.difference(granted@),
            rest.items@.len() == 0 <==> self@.subset_of(granted@),
    {
        let mut rest = PermissionSetV1::new();
        let ghost all = permission_views(self.items@);
        let mut i: usize = 0;
        proof {
            assert(rest@ =~= all.take(0).to_set().difference(granted@));
        }
        while i < self.items.len()
            invariant
                i <= self.items.len(),
                all == permission_views(self.items@),
                rest.well_formed(),
                rest@ == all.take(i as int).to_set().difference(granted@),
            decreases self.items.len() - i,
        {
            let ghost before = rest@;
            proof {
                lemma_push_permission(all.take(i as int), self.items@[i as int]@);
                assert(all.take(i as int + 1) =~= all.take(i as int).push(
                    self.items@[i as int]@,
                ));
            }
            if !granted.contains(&self.items[i]) {
                rest.insert(self.items[i].copied());
            }
            proof {
                assert(rest@ =~= all.take(i as int + 1).to_set().difference(granted@));
            }
            i += 1;
        }
        proof {
            assert(all.take(all.len() as int) =~= all);
            assert(rest@ == self@.difference(granted@));
            if rest.items@.len() > 0 {
                assert(permission_views(rest.items@)[0] == rest.items@[0]@);
                assert(rest@.contains(rest.items@[0]@));
            } else {
                assert forall|v: PermissionView| self@.contains(v) implies granted@.contains(
                    v,
                ) by {
                    if !granted@.contains(v) {
                        assert(rest@.contains(v));
                    }
                }
            }
        }
        rest
    }

    /// A copy of the set.
    pub fn copied(&self) -> (copy: PermissionSetV1)
        ensures
            copy.items@ == self.items@,
    {
        let mut items: Vec<PermissionV1> = Vec::new();
        let mut i: usize = 0;
        while i < self.items.len()
            invariant
                i <= self.items.len(),
                items@ == self.items@.take(i as int),
            decreases self.items.len() - i,
        {
            items.push(self.items[i].copied());
            proof {
                assert(self.items@.take(i as int + 1) =~= self.items@.take(i as int).push(
                    self.items@[i as int],
                ));
            }
            i += 1;
        }
        proof {
            assert(self.items@.take(self.items@.len() as int) =~= self.items@);
        }
        PermissionSetV1 { items }
    }
}

/// One step of a plan.
#[derive(Clone, Debug)]
pub struct PlanStepV1 {
    pub target: String,
    pub resource: Option<String>,
    pub action: PlanActionV1,
    pub diagnostic_codes: Vec<String>,
}

/// A step by the characters it holds.
pub ghost struct PlanStepView {
    pub target: Seq<char>,
    pub resource: Option<Seq<char>>,
    pub action: PlanActionV1,
    pub diagnostic_codes: Seq<Seq<char>>,
}

impl View for PlanStepV1 {
    type V = PlanStepView;

    open spec fn view(&self) -> PlanStepView {
        PlanStepView {
            target: self.target@,
            resource: optional_text(self.resource),
            action: self.action,
            diagnostic_codes: texts(self.diagnostic_codes@),
        }
    }
}

impl PlanStepV1 {
    /// A step without diagnostic codes.
    pub fn new(target: &str, resource: Option<&str>, action: PlanActionV1) -> (step: PlanStepV1)
        ensures
            step@ == (PlanStepView {
                target: target@,
                resource: match resource {
                    Some(resource) => Some(resource@),
                    None => None,
                },
                action,
                diagnostic_codes: Seq::empty(),
            }),
    {
        let step = PlanStepV1 {
            target: target.to_owned(),
            resource: match resource {
                Some(resource) => Some(resource.to_owned()),
                None => None,
            },
            action,
            diagnostic_codes: Vec::new(),
        };
        proof {
            assert(texts(step.diagnostic_codes@) =~= Seq::empty());
        }
        step
    }

    /// The same step with one more diagnostic code at the end.
    pub fn with_diagnostic_code(self, code: &str) -> (step: PlanStepV1)
        ensures
            step@ == (PlanStepView {
                diagnostic_codes: self@.diagnostic_codes.push(code@),
                ..self@
            }),
    {
        let mut step = self;
        let ghost before = step.diagnostic_codes@;
        step.diagnostic_codes.push(code.to_owned());
        proof {
            assert(texts(step.diagnostic_codes@) =~= texts(before).push(code@));
        }
        step
    }

    /// Whether the two steps hold the same values.
    pub fn same(&self, other: &PlanStepV1) -> (result: bool)
        ensures
            result == (self@ == other@),
    {
        same_text(self.target.as_str(), other.target.as_str()) && same_optional_text(
            &self.resource,
            &other.resource,
        ) && self.action == other.action && crate::text::same_texts(
            self.diagnostic_codes.as_slice(),
            other.diagnostic_codes.as_slice(),
        )
    }

    /// Whether the step describes the resource of a target.
    pub open spec fn describes(&self, target: Seq<char>, resource: Seq<char>) -> bool {
        self.target@ == target && optional_text(self.resource) == Some(resource)
    }

    /// Whether the step is about this resource of this target.
    pub fn is_about(&self, target: &str, resource: &str) -> (result: bool)
        ensures
            result == self.describes(target@, resource@),
    {
        if !same_text(self.target.as_str(), target) {
            return false;
        }
        match &self.resource {
            Some(own) => same_text(own.as_str(), resource),
            None => false,
        }
    }

    /// A copy of the step.
    pub fn copied(&self) -> (copy: PlanStepV1)
        ensures
            copy@ == self@,
    {
        PlanStepV1 {
            target: self.target.clone(),
            resource: match &self.resource {
                Some(resource) => Some(resource.clone()),
                None => None,
            },
            action: self.action,
            diagnostic_codes: crate::text::copy_texts(self.diagnostic_codes.as_slice()),
        }
    }
}

/// The views of a list of steps.
pub open spec fn step_views(steps: Seq<PlanStepV1>) -> Seq<PlanStepView> {
    steps.map_values(|step: PlanStepV1| step@)
}

fn same_steps(left: &Vec<PlanStepV1>, right: &Vec<PlanStepV1>) -> (same: bool)
    ensures
        same == (step_views(left@) == step_views(right@)),
{
    if left.len() != right.len() {
        proof {
            assert(step_views(left@).len() != step_views(right@).len());
        }
        return false;
    }
    let mut i: usize = 0;
    while i < left.len()
        invariant
            i <= left.len(),
            left.len() == right.len(),
            forall|j: int| 0 <= j < i ==> left@[j]@ == right@[j]@,
        decreases left.len() - i,
    {
        if !left[i].same(&right[i]) {
            proof {
                assert(step_views(left@)[i as int] == left@[i as int]@);
                assert(step_views(right@)[i as int] == right@[i as int]@);
            }
            return false;
        }
        i += 1;
    }
    proof {
        assert(step_views(left@) =~= step_views(right@));
    }
    true
}

/// One labelled observation of state.
#[derive(Clone, Debug)]
pub struct StateObservation {
    pub label: String,
    pub value: Vec<u8>,
}

/// The bytes that stand for a list of observations: each label and each value
/// ended by a zero byte.
pub open spec fn observation_bytes(list: Seq<(Seq<char>, Seq<u8>)>) -> Seq<u8>
    decreases list.len(),
{
    if list.len() == 0 {
        Seq::empty()
    } else {
        observation_bytes(list.drop_last()) + encode_utf8(list.last().0) + seq![0u8]
            + list.last().1 + seq![0u8]
    }
}

/// The identity of a list of observations in a named domain.
#[derive(Clone, Debug)]
pub struct SnapshotDigestV1 {
    pub domain: String,
    pub value: u64,
}

/// A digest by the values it holds.
pub ghost struct DigestView {
    pub domain: Seq<char>,
    pub value: u64,
}

impl View for SnapshotDigestV1 {
    type V = DigestView;

    open spec fn view(&self) -> DigestView {
        DigestView { domain: self.domain@, value: self.value }
    }
}

/// Collects observations until their digest is taken.
#[derive(Clone, Debug)]
pub struct SnapshotDigestBuilder {
    pub domain: String,
    pub observations: Vec<StateObservation>,
}

/// An observation by the values it holds.
pub open spec fn observation_view(item: StateObservation) -> (Seq<char>, Seq<u8>) {
    (item.label@, item.value@)
}

/// The views of a list of observations.
pub open spec fn observation_views(list: Seq<StateObservation>) -> Seq<(Seq<char>, Seq<u8>)> {
    list.map_values(|item: StateObservation| observation_view(item))
}

impl SnapshotDigestBuilder {
    /// Adds an observation under a label.
    pub fn add_observation(&mut self, label: &str, value: &[u8])
        ensures
            final(self).domain@ == old(self).domain@,
            observation_views(final(self).observations@) == observation_views(
                old(self).observations@,
            ).push((label@, value@)),
    {
        let ghost before = self.observations@;
        let mut copy: Vec<u8> = Vec::new();
        copy.extend_from_slice(value);
        proof {
            assert(copy@ =~= value@);
        }
        self.observations.push(StateObservation { label: label.to_owned(), value: copy });
        proof {
            assert(observation_views(self.observations@) =~= observation_views(before).push(
                (label@, value@),
            ));
        }
    }

    /// The digest of what was observed.
    pub fn finish(self) -> (digest: SnapshotDigestV1)
        ensures
            digest@ == (DigestView {
                domain: self.domain@,
                value: content_hash(observation_bytes(observation_views(self.observations@))),
            }),
    {
        let mut bytes: Vec<u8> = Vec::new();
        let mut i: usize = 0;
        let ghost all = observation_views(self.observations@);
        proof {
            assert(all.take(0) =~= Seq::<(Seq<char>, Seq<u8>)>::empty());
        }
        while i < self.observations.len()
            invariant
                i <= self.observations.len(),
                all == observation_views(self.observations@),
                bytes@ == observation_bytes(all.take(i as int)),
            decreases self.observations.len() - i,
        {
            let ghost before = bytes@;
            let item = &self.observations[i];
            let label: &[u8] = item.label.as_str().as_bytes();
            bytes.extend_from_slice(label);
            bytes.push(0);
            bytes.extend_from_slice(item.value.as_slice());
            bytes.push(0);
            proof {
                assert(all.take(i as int + 1).drop_last() =~= all.take(i as int));
                assert(all.take(i as int + 1).last() == (item.label@, item.value@));
                assert(label@ == encode_utf8(item.label@));
                assert(bytes@ =~= before + label@ + seq![0u8] + item.value@ + seq![0u8]);
            }
            i += 1;
        }
        proof {
            assert(all.take(all.len() as int) =~= all);
        }
        let value = hash_content(bytes.as_slice());
        SnapshotDigestV1 { domain: self.domain, value }
    }
}

impl SnapshotDigestV1 {
    /// Starts a snapshot in the given domain.
    pub fn builder(domain: &str) -> (builder: SnapshotDigestBuilder)
        ensures
            builder.domain@ == domain@,
            builder.observations@ == Seq::<StateObservation>::empty(),
    {
        SnapshotDigestBuilder { domain: domain.to_owned(), observations: Vec::new() }
    }

    /// Whether the two digests are the same.
    pub fn same(&self, other: &SnapshotDigestV1) -> (result: bool)
        ensures
            result == (self@ == other@),
    {
        same_text(self.domain.as_str(), other.domain.as_str()) && self.value == other.value
    }

    /// A copy of the digest.
    pub fn copied(&self) -> (copy: SnapshotDigestV1)
        ensures
            copy == *self,
    {
        SnapshotDigestV1 { domain: self.domain.clone(), value: self.value }
    }
}

/// What a plan was made from.
#[derive(Clone, Debug)]
pub struct PlanInputsV1 {
    pub preset: SnapshotDigestV1,
    pub state: SnapshotDigestV1,
}

impl View for PlanInputsV1 {
    type V = (DigestView, DigestView);

    open spec fn view(&self) -> (DigestView, DigestView) {
        (self.preset@, self.state@)
    }
}

/// The permissions of a plan: those it needs, those of them that are not granted,
/// and why others are unknown.
#[derive(Clone, Debug)]
pub struct PermissionResolutionV1 {
    pub required: PermissionSetV1,
    pub missing_declarations: PermissionSetV1,
    pub uncomputable_codes: Vec<String>,
}

/// A plan for review: what an operation would do and what it needs.
#[derive(Clone, Debug)]
pub struct PlanV1 {
    pub operation: PlanOperationV1,
    pub inputs: PlanInputsV1,
    pub steps: Vec<PlanStepV1>,
    pub permissions: PermissionResolutionV1,
}

impl PlanV1 {
    /// A plan over the given steps, whose required permissions are held against
    /// the granted ones.
    pub fn new(
        operation: PlanOperationV1,
        inputs: PlanInputsV1,
        steps: Vec<PlanStepV1>,
        required: PermissionSetV1,
        granted: &PermissionSetV1,
        uncomputable_codes: Vec<String>,
    ) -> (plan: PlanV1)
        ensures
            plan.operation == operation,
            plan.inputs == inputs,
            plan.steps == steps,
            plan.permissions.required == required,
            plan.permissions.missing_declarations.well_formed(),
            plan.permissions.missing_declarations@ == required@.difference(granted@),
            plan.permissions.missing_declarations.items@.len() == 0 <==> required@.subset_of(
                granted@,
            ),
            plan.permissions.uncomputable_codes == uncomputable_codes,
    {
        let missing_declarations = required.without(granted);
        PlanV1 {
            operation,
            inputs,
            steps,
            permissions: PermissionResolutionV1 {
                required,
                missing_declarations,
                uncomputable_codes,
            },
        }
    }

    /// No step is blocked, every permission is granted, and none is unknown.
    pub open spec fn ready(&self) -> bool {
        &&& forall|i: int|
            0 <= i < self.steps@.len() ==> (#[trigger] self.steps@[i]).action
                != PlanActionV1::Blocked
        &&& self.permissions.missing_declarations.items@.len() == 0
        &&& self.permissions.uncomputable_codes@.len() == 0
    }

    /// Whether the plan can be approved.
    pub fn is_ready(&self) -> (result: bool)
        ensures
            result == self.ready(),
    {
        let mut i: usize = 0;
        while i < self.steps.len()
            invariant
                i <= self.steps.len(),
                forall|j: int|
                    0 <= j < i ==> (#[trigger] self.steps@[j]).action != PlanActionV1::Blocked,
            decreases self.steps.len() - i,
        {
            if self.steps[i].action == PlanActionV1::Blocked {
                return false;
            }
            i += 1;
        }
        self.permissions.missing_declarations.items.len() == 0
            && self.permissions.uncomputable_codes.len() == 0
    }

    /// Whether some step does `action` to this resource of this target.
    pub open spec fn has_step(
        &self,
        target: Seq<char>,
        resource: Seq<char>,
        action: PlanActionV1,
    ) -> bool {
        exists|i: int|
            0 <= i < self.steps@.len() && (#[trigger] self.steps@[i]).describes(target, resource)
                && self.steps@[i].action == action
    }

    /// Whether some step does `action` to the resource and carries `code`.
    pub open spec fn has_coded_step(
        &self,
        target: Seq<char>,
        resource: Seq<char>,
        action: PlanActionV1,
        code: Seq<char>,
    ) -> bool {
        exists|i: int|
            0 <= i < self.steps@.len() && (#[trigger] self.steps@[i]).describes(target, resource)
                && self.steps@[i].action == action && texts(
                self.steps@[i].diagnostic_codes@,
            ).contains(code)
    }

    /// Whether the plan holds a step that does `action` to the resource.
    pub fn describes_step(&self, target: &str, resource: &str, action: PlanActionV1) -> (found:
        bool)
        ensures
            found == self.has_step(target@, resource@, action),
    {
        let mut i: usize = 0;
        while i < self.steps.len()
            invariant
                i <= self.steps.len(),
                forall|j: int|
                    0 <= j < i ==> !((#[trigger] self.steps@[j]).describes(target@, resource@)
                        && self.steps@[j].action == action),
            decreases self.steps.len() - i,
        {
            let step = &self.steps[i];
            if step.is_about(target, resource) && step.action == action {
                assert(self.steps@[i as int].describes(target@, resource@));
                return true;
            }
            i += 1;
        }
        false
    }

    /// Whether the plan holds a step that does `action` to the resource and
    /// carries the diagnostic code.
    pub fn describes_coded_step(
        &self,
        target: &str,
        resource: &str,
        action: PlanActionV1,
        code: &str,
    ) -> (found: bool)
        ensures
            found == self.has_coded_step(target@, resource@, action, code@),
    {
        let mut i: usize = 0;
        while i < self.steps.len()
            invariant
                i <= self.steps.len(),
                forall|j: int|
                    0 <= j < i ==> !((#[trigger] self.steps@[j]).describes(target@, resource@)
                        && self.steps@[j].action == action && texts(
                        self.steps@[j].diagnostic_codes@,
                    ).contains(code@)),
            decreases self.steps.len() - i,
        {
            let step = &self.steps[i];
            if step.is_about(target, resource) && step.action == action
                && crate::text::list_contains(step.diagnostic_codes.as_slice(), code) {
                assert(self.steps@[i as int].describes(target@, resource@));
                return true;
            }
            i += 1;
        }
        false
    }
}

/// Why a plan cannot be approved or an approval does not hold for a plan.
#[derive(Clone, Copy, Debug, PartialEq, Eq, Structural)]
pub enum PlanApprovalError {
    UnsupportedSchema,
    PlanNotReady,
    PlanChanged,
}

/// The approval of one reviewed plan.
#[derive(Clone, Debug)]
pub struct PlanApprovalV1 {
    pub schema_version: u32,
    pub operation: PlanOperationV1,
    pub inputs: PlanInputsV1,
    pub steps: Vec<PlanStepV1>,
    pub approved_permissions: PermissionSetV1,
}

fn copy_steps(list: &Vec<PlanStepV1>) -> (steps: Vec<PlanStepV1>)
    ensures
        step_views(steps@) == step_views(list@),
{
    let mut steps: Vec<PlanStepV1> = Vec::new();
    let mut i: usize = 0;
    proof {
        assert(step_views(steps@) =~= step_views(list@).take(0));
    }
    while i < list.len()
        invariant
            i <= list.len(),
            step_views(steps@) == step_views(list@).take(i as int),
        decreases list.len() - i,
    {
        let ghost before = steps@;
        steps.push(list[i].copied());
        proof {
            assert(step_views(steps@) =~= step_views(before).push(list@[i as int]@));
            assert(step_views(steps@) =~= step_views(list@).take(i as int + 1));
        }
        i += 1;
    }
    proof {
        assert(step_views(list@).take(list@.len() as int) =~= step_views(list@));
    }
    steps
}

impl PlanApprovalV1 {
    /// The plan is the one that was reviewed: same operation, same inputs, same
    /// steps, same permissions.
    pub open spec fn reviewed(&self, plan: PlanV1) -> bool {
        &&& self.operation == plan.operation
        &&& self.inputs@ == plan.inputs@
        &&& step_views(self.steps@) == step_views(plan.steps@)
        &&& self.approved_permissions@ == plan.permissions.required@
    }

    /// What holding the approval against a plan gives.
    pub open spec fn verdict(&self, plan: PlanV1) -> Result<(), PlanApprovalError> {
        if self.schema_version != PLAN_APPROVAL_SCHEMA_VERSION {
            Err(PlanApprovalError::UnsupportedSchema)
        } else if !plan.ready() {
            Err(PlanApprovalError::PlanNotReady)
        } else if !self.reviewed(plan) {
            Err(PlanApprovalError::PlanChanged)
        } else {
            Ok(())
        }
    }

    /// Whether two approvals say the same.
    pub open spec fn agrees(&self, other: PlanApprovalV1) -> bool {
        &&& self.schema_version == other.schema_version
        &&& self.operation == other.operation
        &&& self.inputs@ == other.inputs@
        &&& step_views(self.steps@) == step_views(other.steps@)
        &&& self.approved_permissions@ == other.approved_permissions@
    }

    /// The same approval once more.
    pub fn copied(&self) -> (copy: PlanApprovalV1)
        ensures
            copy.agrees(*self),
    {
        PlanApprovalV1 {
            schema_version: self.schema_version,
            operation: self.operation,
            inputs: PlanInputsV1 {
                preset: self.inputs.preset.copied(),
                state: self.inputs.state.copied(),
            },
            steps: copy_steps(&self.steps),
            approved_permissions: self.approved_permissions.copied(),
        }
    }

    /// Approves a reviewed plan; one that is not ready is refused.
    pub fn for_reviewed_plan(plan: &PlanV1) -> (result: Result<PlanApprovalV1, PlanApprovalError>)
        ensures
            result is Ok <==> plan.ready(),
            result is Ok ==> result->Ok_0.schema_version == PLAN_APPROVAL_SCHEMA_VERSION
                && result->Ok_0.reviewed(*plan),
            result is Err ==> result->Err_0 == PlanApprovalError::PlanNotReady,
    {
        if !plan.is_ready() {
            return Err(PlanApprovalError::PlanNotReady);
        }
        let steps = copy_steps(&plan.steps);
        Ok(
            PlanApprovalV1 {
                schema_version: PLAN_APPROVAL_SCHEMA_VERSION,
                operation: plan.operation,
                inputs: PlanInputsV1 {
                    preset: plan.inputs.preset.copied(),
                    state: plan.inputs.state.copied(),
                },
                steps,
                approved_permissions: plan.permissions.required.copied(),
            },
        )
    }

    /// Holds the approval against a plan.
    pub fn validate(&self, plan: &PlanV1) -> (result: Result<(), PlanApprovalError>)
        ensures
            result == self.verdict(*plan),
    {
        if self.schema_version != PLAN_APPROVAL_SCHEMA_VERSION {
            return Err(PlanApprovalError::UnsupportedSchema);
        }
        if !plan.is_ready() {
            return Err(PlanApprovalError::PlanNotReady);
        }
        let same_permissions = self.approved_permissions.is_covered_by(&plan.permissions.required)
            && plan.permissions.required.is_covered_by(&self.approved_permissions);
        proof {
            assert(same_permissions == (self.approved_permissions@
                == plan.permissions.required@)) by {
                if same_permissions {
                    assert(self.approved_permissions@ =~= plan.permissions.required@);
                }
            }
        }
        if self.operation == plan.operation && self.inputs.preset.same(&plan.inputs.preset)
            && self.inputs.state.same(&plan.inputs.state) && same_steps(&self.steps, &plan.steps)
            && same_permissions {
            Ok(())
        } else {
            Err(PlanApprovalError::PlanChanged)
        }
    }
}

/// An approval holds for the plan that was reviewed, and for a plan that differs
/// from it in any step, input, permission or in its operation it does not.
pub proof fn law_approval_binds_one_plan(approval: PlanApprovalV1, reviewed: PlanV1, other: PlanV1)
    requires
        approval.verdict(reviewed) is Ok,
    ensures
        approval.verdict(other) is Ok ==> {
            &&& other.operation == reviewed.operation
            &&& other.inputs@ == reviewed.inputs@
            &&& step_views(other.steps@) == step_views(reviewed.steps@)
            &&& other.permissions.required@ == reviewed.permissions.required@
        },
{
}

} // verus!
