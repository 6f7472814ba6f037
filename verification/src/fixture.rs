//! Trying a preset on the hosts that its author made up.

use vstd::prelude::*;
use vstd::string::*;

use crate::authoring::{
    is_single_category, PresetAuthoringPlanReportV1, PresetAuthoringPlanSectionV1,
    PresetSourceScope,
};
use crate::fixture_types::{FixtureCaseV1, FixtureDocumentV1, FixtureExpectationV1, FixtureFault};
use crate::lexical::{is_blank, trimmed};
use crate::plan::{
    permission_views, step_views, EnvironmentSensitivityV1, FilesystemAccessV1, NetworkScopeV1,
    PermissionV1, PermissionView, PlanActionV1, PlanStepV1, PlanStepView,
};
use crate::presets::{preset_file, PresetFileView, PresetSnapshot};
use crate::sorted::{in_order, lemma_in_order, sorted};
use crate::text::{copy_texts, joined, list_contains, push_text, same_texts, texts};
use crate::validation::{preset_target, target_text, PresetDiagnostic, PresetKind};

verus! {

/// The schema of fixtures and of their reports.
pub const PRESET_TEST_SCHEMA_VERSION: u32 = 1;

/// The file of a category that holds its fixture.
pub const PRESET_TEST_FIXTURE_FILE: &'static str = "shine.test.toml";

/// The preset path of the fixture of a category.
pub fn fixture_file_path(kind: PresetKind, name: &str) -> (path: String)
    ensures
        path@ == target_text(kind, name@) + "/"@ + "shine.test.toml"@,
{
    let mut path = preset_target(kind, name);
    path.append("/");
    path.append(PRESET_TEST_FIXTURE_FILE);
    path
}

/// What became of one case.
#[derive(Clone, Debug)]
pub struct PresetTestCaseResultV1 {
    pub name: String,
    pub platform: String,
    pub passed: bool,
    pub actual_valid: bool,
    pub actual_ready: bool,
    pub actual_plan_kinds: Vec<String>,
    pub actual_diagnostic_codes: Vec<String>,
    pub actual_step_diagnostic_codes: Vec<String>,
    pub actual_actions: Vec<String>,
    pub actual_required_permissions: Vec<String>,
    pub actual_missing_permissions: Vec<String>,
    pub actual_permission_diagnostic_codes: Vec<String>,
    pub failure_codes: Vec<String>,
}

#[derive(Clone, Copy, Debug, PartialEq, Eq, Structural)]
pub struct PresetTestSummaryV1 {
    pub cases: usize,
    pub passed: usize,
    pub failed: usize,
}

/// What became of the cases.
#[derive(Clone, Debug)]
pub struct PresetTestReportV1 {
    pub schema_version: u32,
    pub valid: bool,
    pub diagnostics: Vec<String>,
    pub summary: PresetTestSummaryV1,
    pub cases: Vec<PresetTestCaseResultV1>,
}

/// The report of a fixture that cannot be used.
pub fn invalid(fault: FixtureFault) -> (report: PresetTestReportV1)
    ensures
        report.schema_version == PRESET_TEST_SCHEMA_VERSION,
        !report.valid,
        texts(report.diagnostics@) == seq![fault.text()],
        report.summary == (PresetTestSummaryV1 { cases: 0, passed: 0, failed: 0 }),
        report.cases@.len() == 0,
{
    let mut diagnostics: Vec<String> = Vec::new();
    push_text(&mut diagnostics, fault.as_str());
    proof {
        assert(texts(diagnostics@) =~= seq![fault.text()]);
    }
    PresetTestReportV1 {
        schema_version: PRESET_TEST_SCHEMA_VERSION,
        valid: false,
        diagnostics,
        summary: PresetTestSummaryV1 { cases: 0, passed: 0, failed: 0 },
        cases: Vec::new(),
    }
}

/// The names of cases.
pub open spec fn case_names(cases: Seq<FixtureCaseV1>) -> Seq<Seq<char>> {
    cases.map_values(|case: FixtureCaseV1| case.name@)
}

/// Whether no name is blank and none occurs twice.
pub open spec fn names_valid(names: Seq<Seq<char>>) -> bool
    decreases names.len(),
{
    names.len() == 0 || (names_valid(names.drop_last()) && trimmed(names.last()).len() > 0
        && !names.drop_last().contains(names.last()))
}

/// What is wrong with a fixture as a whole.
pub open spec fn document_fault(document: FixtureDocumentV1) -> Option<FixtureFault> {
    if document.schema_version != PRESET_TEST_SCHEMA_VERSION {
        Some(FixtureFault::SchemaUnsupported)
    } else if document.cases@.len() == 0 {
        Some(FixtureFault::CasesEmpty)
    } else if !names_valid(case_names(document.cases@)) {
        Some(FixtureFault::CaseNameInvalid)
    } else {
        None
    }
}

proof fn lemma_names_invalid_stays(names: Seq<Seq<char>>, count: int)
    requires
        0 <= count <= names.len(),
        !names_valid(names.take(count)),
    ensures
        !names_valid(names),
    decreases names.len() - count,
{
    if count == names.len() {
        assert(names.take(count) =~= names);
    } else {
        assert(names.take(count + 1).drop_last() =~= names.take(count));
        lemma_names_invalid_stays(names, count + 1);
    }
}

/// What is wrong with the fixture as a whole.
pub fn check_document(document: &FixtureDocumentV1) -> (fault: Option<FixtureFault>)
    ensures
        fault == document_fault(*document),
{
    if document.schema_version != PRESET_TEST_SCHEMA_VERSION {
        return Some(FixtureFault::SchemaUnsupported);
    }
    if document.cases.len() == 0 {
        return Some(FixtureFault::CasesEmpty);
    }
    let ghost all = case_names(document.cases@);
    let mut seen: Vec<String> = Vec::new();
    let mut i: usize = 0;
    proof {
        assert(all.take(0) =~= Seq::<Seq<char>>::empty());
        assert(texts(seen@) =~= all.take(0));
    }
    while i < document.cases.len()
        invariant
            i <= document.cases.len(),
            document.schema_version == PRESET_TEST_SCHEMA_VERSION,
            document.cases@.len() > 0,
            all == case_names(document.cases@),
            texts(seen@) == all.take(i as int),
            names_valid(all.take(i as int)),
        decreases document.cases.len() - i,
    {
        let name = &document.cases[i].name;
        proof {
            assert(all.take(i as int + 1).drop_last() =~= all.take(i as int));
            assert(all.take(i as int + 1).last() == name@);
        }
        if is_blank(name.as_str()) || list_contains(seen.as_slice(), name.as_str()) {
            proof {
                lemma_names_invalid_stays(all, i as int + 1);
            }
            return Some(FixtureFault::CaseNameInvalid);
        }
        push_text(&mut seen, name.as_str());
        proof {
            assert(all.take(i as int + 1) =~= all.take(i as int).push(name@));
        }
        i += 1;
    }
    proof {
        assert(all.take(all.len() as int) =~= all);
    }
    None
}

/// Where the fixture of a scope that is one category stands among the preset files.
pub open spec fn fixture_place(scope: PresetSourceScope) -> Seq<char> {
    target_text(scope.categories@[0].kind, scope.categories@[0].name@) + "/"@
        + "shine.test.toml"@
}

/// What keeps the fixture of a scope from being read, if anything does.
pub open spec fn place_fault(scope: PresetSourceScope, files: Seq<PresetFileView>) -> Option<
    FixtureFault,
> {
    if !is_single_category(scope) {
        Some(FixtureFault::SingleCategoryRequired)
    } else if preset_file(files, fixture_place(scope)) is None {
        Some(FixtureFault::Missing)
    } else {
        None
    }
}

/// The bytes of the fixture of the scope.
pub fn find_fixture<'a>(scope: &PresetSourceScope, presets: &'a PresetSnapshot) -> (result: Result<
    &'a [u8],
    FixtureFault,
>)
    ensures
        match place_fault(*scope, presets@) {
            Some(fault) => result is Err && result->Err_0 == fault,
            None => result is Ok && result->Ok_0@ == preset_file(
                presets@,
                fixture_place(*scope),
            )->0.bytes,
        },
{
    if !scope.is_single() {
        return Err(FixtureFault::SingleCategoryRequired);
    }
    let category = &scope.categories[0];
    let path = fixture_file_path(category.kind, category.name.as_str());
    match presets.get(path.as_str()) {
        Some(bytes) => Ok(bytes),
        None => Err(FixtureFault::Missing),
    }
}

/// What is wrong with the fixture of a scope, if anything is: the scope is not one
/// category, has no fixture, has one that is no document, or the document is not in
/// order. The first of these counts.
pub open spec fn fixture_fault(
    scope: PresetSourceScope,
    files: Seq<PresetFileView>,
    document: Option<FixtureDocumentV1>,
) -> Option<FixtureFault> {
    match place_fault(scope, files) {
        Some(fault) => Some(fault),
        None => match document {
            None => Some(FixtureFault::Invalid),
            Some(document) => document_fault(document),
        },
    }
}

/// Accepts the fixture of the scope, from the document that its bytes were read as.
pub fn accept_fixture(
    scope: &PresetSourceScope,
    presets: &PresetSnapshot,
    document: Option<FixtureDocumentV1>,
) -> (result: Result<FixtureDocumentV1, FixtureFault>)
    ensures
        match fixture_fault(*scope, presets@, document) {
            Some(fault) => result is Err && result->Err_0 == fault,
            None => result is Ok && Some(result->Ok_0) == document,
        },
{
    if let Err(fault) = find_fixture(scope, presets) {
        return Err(fault);
    }
    match document {
        None => Err(FixtureFault::Invalid),
        Some(document) => match check_document(&document) {
            Some(fault) => Err(fault),
            None => Ok(document),
        },
    }
}

/// The name of an action.
pub open spec fn action_text(action: PlanActionV1) -> Seq<char> {
    match action {
        PlanActionV1::Nothing => "none"@,
        PlanActionV1::Create => "create"@,
        PlanActionV1::Update => "update"@,
        PlanActionV1::Remove => "remove"@,
        PlanActionV1::Execute => "execute"@,
        PlanActionV1::Preserve => "preserve"@,
        PlanActionV1::Blocked => "blocked"@,
    }
}

/// The name of the action.
pub fn action_name(action: PlanActionV1) -> (name: &'static str)
    ensures
        name@ == action_text(action),
{
    match action {
        PlanActionV1::Nothing => "none",
        PlanActionV1::Create => "create",
        PlanActionV1::Update => "update",
        PlanActionV1::Remove => "remove",
        PlanActionV1::Execute => "execute",
        PlanActionV1::Preserve => "preserve",
        PlanActionV1::Blocked => "blocked",
    }
}

/// The name of an access.
pub open spec fn access_text(access: FilesystemAccessV1) -> Seq<char> {
    match access {
        FilesystemAccessV1::Read => "read"@,
        FilesystemAccessV1::Write => "write"@,
        FilesystemAccessV1::Remove => "remove"@,
        FilesystemAccessV1::Execute => "execute"@,
    }
}

fn access_name(access: FilesystemAccessV1) -> (name: &'static str)
    ensures
        name@ == access_text(access),
{
    match access {
        FilesystemAccessV1::Read => "read",
        FilesystemAccessV1::Write => "write",
        FilesystemAccessV1::Remove => "remove",
        FilesystemAccessV1::Execute => "execute",
    }
}

/// A permission in words.
pub open spec fn permission_text(permission: PermissionView) -> Seq<char> {
    match permission {
        PermissionView::Filesystem { access, path } => "filesystem:"@ + access_text(access) + ":"@
            + path,
        PermissionView::NetworkAny => "network:any"@,
        PermissionView::NetworkHost { host } => "network:host:"@ + host,
        PermissionView::Command { program } => "command:"@ + program,
        PermissionView::Administrator => "administrator"@,
        PermissionView::Environment { name, sensitivity } => "environment:"@ + match sensitivity {
            EnvironmentSensitivityV1::Plain => "plain"@,
            EnvironmentSensitivityV1::Secret => "secret"@,
        } + ":"@ + name,
        PermissionView::System { capability, resource } => match resource {
            Some(resource) => "system:"@ + capability + ":"@ + resource,
            None => "system:"@ + capability,
        },
    }
}

/// The permission in words.
pub fn permission_name(permission: &PermissionV1) -> (name: String)
    ensures
        name@ == permission_text(permission@),
{
    match permission {
        PermissionV1::Filesystem { access, path } => {
            let mut name = joined("filesystem:", access_name(*access));
            name.append(":");
            name.append(path.as_str());
            name
        },
        PermissionV1::Network { scope } => match scope {
            NetworkScopeV1::Any => "network:any".to_owned(),
            NetworkScopeV1::Host(host) => joined("network:host:", host.as_str()),
        },
        PermissionV1::Command { program } => joined("command:", program.as_str()),
        PermissionV1::Administrator => "administrator".to_owned(),
        PermissionV1::Environment { name, sensitivity } => {
            let word = match sensitivity {
                EnvironmentSensitivityV1::Plain => "plain",
                EnvironmentSensitivityV1::Secret => "secret",
            };
            let mut text = joined("environment:", word);
            text.append(":");
            text.append(name.as_str());
            text
        },
        PermissionV1::System { capability, resource } => {
            let mut text = joined("system:", capability.as_str());
            if let Some(resource) = resource {
                text.append(":");
                text.append(resource.as_str());
            }
            text
        },
    }
}

/// What a case can look at in the plans of a report.
#[derive(Clone, Copy, Debug, PartialEq, Eq, Structural)]
pub enum Aspect {
    PlanKinds,
    StepCodes,
    Actions,
    RequiredPermissions,
    MissingPermissions,
    PermissionCodes,
}

/// The diagnostic codes of steps.
pub open spec fn step_codes(steps: Seq<PlanStepView>) -> Seq<Seq<char>>
    decreases steps.len(),
{
    if steps.len() == 0 {
        Seq::empty()
    } else {
        step_codes(steps.drop_last()) + steps.last().diagnostic_codes
    }
}

/// The names of the actions of steps.
pub open spec fn step_actions(steps: Seq<PlanStepView>) -> Seq<Seq<char>> {
    steps.map_values(|step: PlanStepView| action_text(step.action))
}

/// Permissions in words.
pub open spec fn permission_texts(list: Seq<PermissionView>) -> Seq<Seq<char>> {
    list.map_values(|item: PermissionView| permission_text(item))
}

/// What one plan shows of an aspect.
pub open spec fn section_aspect(section: PresetAuthoringPlanSectionV1, aspect: Aspect) -> Seq<
    Seq<char>,
> {
    match aspect {
        Aspect::PlanKinds => seq![section.kind@],
        Aspect::StepCodes => step_codes(step_views(section.steps@)),
        Aspect::Actions => step_actions(step_views(section.steps@)),
        Aspect::RequiredPermissions => permission_texts(
            permission_views(section.permissions.required.items@),
        ),
        Aspect::MissingPermissions => permission_texts(
            permission_views(section.permissions.missing_declarations.items@),
        ),
        Aspect::PermissionCodes => texts(section.permissions.uncomputable_codes@),
    }
}

/// What plans show of an aspect.
pub open spec fn aspect_texts(plans: Seq<PresetAuthoringPlanSectionV1>, aspect: Aspect) -> Seq<
    Seq<char>,
>
    decreases plans.len(),
{
    if plans.len() == 0 {
        Seq::empty()
    } else {
        aspect_texts(plans.drop_last(), aspect) + section_aspect(plans.last(), aspect)
    }
}

fn push_step_codes(steps: &Vec<PlanStepV1>, list: &mut Vec<String>)
    ensures
        texts(final(list)@) == texts(old(list)@) + step_codes(step_views(steps@)),
{
    let ghost before = texts(list@);
    let ghost all = step_views(steps@);
    let mut i: usize = 0;
    proof {
        assert(all.take(0) =~= Seq::<PlanStepView>::empty());
        assert(texts(list@) =~= before + step_codes(all.take(0)));
    }
    while i < steps.len()
        invariant
            i <= steps.len(),
            all == step_views(steps@),
            texts(list@) == before + step_codes(all.take(i as int)),
        decreases steps.len() - i,
    {
        let ghost now = list@;
        proof {
            assert(all.take(i as int + 1).drop_last() =~= all.take(i as int));
            assert(all.take(i as int + 1).last() == steps@[i as int]@);
        }
        let mut codes = copy_texts(steps[i].diagnostic_codes.as_slice());
        list.append(&mut codes);
        proof {
            assert(texts(list@) =~= texts(now) + texts(steps@[i as int].diagnostic_codes@));
            assert(texts(list@) =~= before + step_codes(all.take(i as int + 1)));
        }
        i += 1;
    }
    proof {
        assert(all.take(all.len() as int) =~= all);
    }
}

fn push_step_actions(steps: &Vec<PlanStepV1>, list: &mut Vec<String>)
    ensures
        texts(final(list)@) == texts(old(list)@) + step_actions(step_views(steps@)),
{
    let ghost before = texts(list@);
    let ghost all = step_actions(step_views(steps@));
    let mut i: usize = 0;
    proof {
        assert(texts(list@) =~= before + all.take(0));
    }
    while i < steps.len()
        invariant
            i <= steps.len(),
            all == step_actions(step_views(steps@)),
            texts(list@) == before + all.take(i as int),
        decreases steps.len() - i,
    {
        push_text(list, action_name(steps[i].action));
        proof {
            assert(step_views(steps@)[i as int] == steps@[i as int]@);
            assert(all.take(i as int + 1) =~= all.take(i as int).push(all[i as int]));
            assert(texts(list@) =~= before + all.take(i as int + 1));
        }
        i += 1;
    }
    proof {
        assert(all.take(all.len() as int) =~= all);
    }
}

fn push_permissions(items: &Vec<PermissionV1>, list: &mut Vec<String>)
    ensures
        texts(final(list)@) == texts(old(list)@) + permission_texts(permission_views(items@)),
{
    let ghost before = texts(list@);
    let ghost all = permission_texts(permission_views(items@));
    let mut i: usize = 0;
    proof {
        assert(texts(list@) =~= before + all.take(0));
    }
    while i < items.len()
        invariant
            i <= items.len(),
            all == permission_texts(permission_views(items@)),
            texts(list@) == before + all.take(i as int),
        decreases items.len() - i,
    {
        let name = permission_name(&items[i]);
        push_text(list, name.as_str());
        proof {
            assert(permission_views(items@)[i as int] == items@[i as int]@);
            assert(all.take(i as int + 1) =~= all.take(i as int).push(all[i as int]));
            assert(texts(list@) =~= before + all.take(i as int + 1));
        }
        i += 1;
    }
    proof {
        assert(all.take(all.len() as int) =~= all);
    }
}

fn push_aspect(section: &PresetAuthoringPlanSectionV1, aspect: Aspect, list: &mut Vec<String>)
    ensures
        texts(final(list)@) == texts(old(list)@) + section_aspect(*section, aspect),
{
    let ghost before = list@;
    match aspect {
        Aspect::PlanKinds => {
            push_text(list, section.kind.as_str());
            proof {
                assert(texts(list@) =~= texts(before) + seq![section.kind@]);
            }
        },
        Aspect::StepCodes => push_step_codes(&section.steps, list),
        Aspect::Actions => push_step_actions(&section.steps, list),
        Aspect::RequiredPermissions => push_permissions(&section.permissions.required.items, list),
        Aspect::MissingPermissions => push_permissions(
            &section.permissions.missing_declarations.items,
            list,
        ),
        Aspect::PermissionCodes => {
            let mut codes = copy_texts(section.permissions.uncomputable_codes.as_slice());
            list.append(&mut codes);
            proof {
                assert(texts(list@) =~= texts(before) + texts(
                    section.permissions.uncomputable_codes@,
                ));
            }
        },
    }
}

/// Texts in order, each once.
pub open spec fn ordered(list: Seq<Seq<char>>) -> Seq<Seq<char>> {
    in_order(list.to_set())
}

fn order(list: Vec<String>) -> (result: Vec<String>)
    ensures
        texts(result@) == ordered(texts(list@)),
{
    let result = sorted(list);
    proof {
        lemma_in_order(texts(result@));
    }
    result
}

/// What the plans show of the aspect, in order.
pub fn collect_aspect(plans: &Vec<PresetAuthoringPlanSectionV1>, aspect: Aspect) -> (list: Vec<
    String,
>)
    ensures
        texts(list@) == ordered(aspect_texts(plans@, aspect)),
{
    let mut list: Vec<String> = Vec::new();
    let mut i: usize = 0;
    proof {
        assert(plans@.take(0) =~= Seq::<PresetAuthoringPlanSectionV1>::empty());
        assert(texts(list@) =~= Seq::<Seq<char>>::empty());
    }
    while i < plans.len()
        invariant
            i <= plans.len(),
            texts(list@) == aspect_texts(plans@.take(i as int), aspect),
        decreases plans.len() - i,
    {
        proof {
            assert(plans@.take(i as int + 1).drop_last() =~= plans@.take(i as int));
            assert(plans@.take(i as int + 1).last() == plans@[i as int]);
        }
        push_aspect(&plans[i], aspect, &mut list);
        i += 1;
    }
    proof {
        assert(plans@.take(plans@.len() as int) =~= plans@);
    }
    order(list)
}

/// The codes of diagnostics.
pub open spec fn diagnostic_codes(list: Seq<PresetDiagnostic>) -> Seq<Seq<char>> {
    list.map_values(|item: PresetDiagnostic| item.code@)
}

fn collect_codes(diagnostics: &Vec<PresetDiagnostic>) -> (list: Vec<String>)
    ensures
        texts(list@) == ordered(diagnostic_codes(diagnostics@)),
{
    let ghost all = diagnostic_codes(diagnostics@);
    let mut list: Vec<String> = Vec::new();
    let mut i: usize = 0;
    proof {
        assert(texts(list@) =~= all.take(0));
    }
    while i < diagnostics.len()
        invariant
            i <= diagnostics.len(),
            all == diagnostic_codes(diagnostics@),
            texts(list@) == all.take(i as int),
        decreases diagnostics.len() - i,
    {
        push_text(&mut list, diagnostics[i].code.as_str());
        proof {
            assert(all.take(i as int + 1) =~= all.take(i as int).push(all[i as int]));
        }
        i += 1;
    }
    proof {
        assert(all.take(all.len() as int) =~= all);
    }
    order(list)
}

/// A code where an expectation is not met, else nothing.
pub open spec fn flag_mismatch(expected: Option<bool>, actual: bool, code: Seq<char>) -> Seq<
    Seq<char>,
> {
    match expected {
        Some(expected) => if expected != actual {
            seq![code]
        } else {
            Seq::empty()
        },
        None => Seq::empty(),
    }
}

/// A code where an expected list, put in order, is not the actual one, else
/// nothing.
pub open spec fn list_mismatch(
    expected: Option<Vec<String>>,
    actual: Seq<Seq<char>>,
    code: Seq<char>,
) -> Seq<Seq<char>> {
    match expected {
        Some(expected) => if ordered(texts(expected@)) != actual {
            seq![code]
        } else {
            Seq::empty()
        },
        None => Seq::empty(),
    }
}

fn compare(expected: Option<bool>, actual: bool, code: &str, failures: &mut Vec<String>)
    ensures
        texts(final(failures)@) == texts(old(failures)@) + flag_mismatch(expected, actual, code@),
{
    let ghost before = texts(failures@);
    if let Some(expected) = expected {
        if expected != actual {
            push_text(failures, code);
        }
    }
    proof {
        assert(texts(failures@) =~= before + flag_mismatch(expected, actual, code@));
    }
}

fn compare_list(
    expected: &Option<Vec<String>>,
    actual: &Vec<String>,
    code: &str,
    failures: &mut Vec<String>,
)
    ensures
        texts(final(failures)@) == texts(old(failures)@) + list_mismatch(
            *expected,
            texts(actual@),
            code@,
        ),
{
    let ghost before = texts(failures@);
    if let Some(expected) = expected {
        let list = order(copy_texts(expected.as_slice()));
        if !same_texts(list.as_slice(), actual.as_slice()) {
            push_text(failures, code);
        }
    }
    proof {
        assert(texts(failures@) =~= before + list_mismatch(*expected, texts(actual@), code@));
    }
}

/// What a case finds different from what it expects.
pub open spec fn failures_of(
    expect: FixtureExpectationV1,
    report: PresetAuthoringPlanReportV1,
) -> Seq<Seq<char>> {
    let plans = report.plans@;
    flag_mismatch(expect.valid, report.valid, "expected_valid_mismatch"@) + flag_mismatch(
        expect.ready,
        report.ready,
        "expected_ready_mismatch"@,
    ) + list_mismatch(
        expect.plan_kinds,
        ordered(aspect_texts(plans, Aspect::PlanKinds)),
        "expected_plan_kinds_mismatch"@,
    ) + list_mismatch(
        expect.diagnostic_codes,
        ordered(diagnostic_codes(report.diagnostics@)),
        "expected_diagnostic_codes_mismatch"@,
    ) + list_mismatch(
        expect.step_diagnostic_codes,
        ordered(aspect_texts(plans, Aspect::StepCodes)),
        "expected_step_diagnostic_codes_mismatch"@,
    ) + list_mismatch(
        expect.actions,
        ordered(aspect_texts(plans, Aspect::Actions)),
        "expected_actions_mismatch"@,
    ) + list_mismatch(
        expect.required_permissions,
        ordered(aspect_texts(plans, Aspect::RequiredPermissions)),
        "expected_required_permissions_mismatch"@,
    ) + list_mismatch(
        expect.missing_permissions,
        ordered(aspect_texts(plans, Aspect::MissingPermissions)),
        "expected_missing_permissions_mismatch"@,
    ) + list_mismatch(
        expect.permission_diagnostic_codes,
        ordered(aspect_texts(plans, Aspect::PermissionCodes)),
        "expected_permission_diagnostic_codes_mismatch"@,
    )
}

/// Whether a result is that of a case and the report of its plan.
pub open spec fn is_result_of(
    result: PresetTestCaseResultV1,
    case: FixtureCaseV1,
    report: PresetAuthoringPlanReportV1,
) -> bool {
    let plans = report.plans@;
    &&& result.name@ == case.name@
    &&& result.platform@ == case.platform.platform().text()
    &&& result.passed == (failures_of(case.expect, report).len() == 0)
    &&& result.actual_valid == report.valid
    &&& result.actual_ready == report.ready
    &&& texts(result.actual_plan_kinds@) == ordered(aspect_texts(plans, Aspect::PlanKinds))
    &&& texts(result.actual_diagnostic_codes@) == ordered(diagnostic_codes(report.diagnostics@))
    &&& texts(result.actual_step_diagnostic_codes@) == ordered(
        aspect_texts(plans, Aspect::StepCodes),
    )
    &&& texts(result.actual_actions@) == ordered(aspect_texts(plans, Aspect::Actions))
    &&& texts(result.actual_required_permissions@) == ordered(
        aspect_texts(plans, Aspect::RequiredPermissions),
    )
    &&& texts(result.actual_missing_permissions@) == ordered(
        aspect_texts(plans, Aspect::MissingPermissions),
    )
    &&& texts(result.actual_permission_diagnostic_codes@) == ordered(
        aspect_texts(plans, Aspect::PermissionCodes),
    )
    &&& texts(result.failure_codes@) == failures_of(case.expect, report)
}

/// The result of the case, from the report of its plan.
pub fn judge_case(case: &FixtureCaseV1, report: &PresetAuthoringPlanReportV1) -> (result:
    PresetTestCaseResultV1)
    ensures
        is_result_of(result, *case, *report),
{
    let kinds = collect_aspect(&report.plans, Aspect::PlanKinds);
    let codes = collect_codes(&report.diagnostics);
    let step_codes = collect_aspect(&report.plans, Aspect::StepCodes);
    let actions = collect_aspect(&report.plans, Aspect::Actions);
    let required = collect_aspect(&report.plans, Aspect::RequiredPermissions);
    let missing = collect_aspect(&report.plans, Aspect::MissingPermissions);
    let permission_codes = collect_aspect(&report.plans, Aspect::PermissionCodes);
    let expect = &case.expect;
    let mut failures: Vec<String> = Vec::new();
    compare(expect.valid, report.valid, "expected_valid_mismatch", &mut failures);
    compare(expect.ready, report.ready, "expected_ready_mismatch", &mut failures);
    compare_list(&expect.plan_kinds, &kinds, "expected_plan_kinds_mismatch", &mut failures);
    compare_list(
        &expect.diagnostic_codes,
        &codes,
        "expected_diagnostic_codes_mismatch",
        &mut failures,
    );
    compare_list(
        &expect.step_diagnostic_codes,
        &step_codes,
        "expected_step_diagnostic_codes_mismatch",
        &mut failures,
    );
    compare_list(&expect.actions, &actions, "expected_actions_mismatch", &mut failures);
    compare_list(
        &expect.required_permissions,
        &required,
        "expected_required_permissions_mismatch",
        &mut failures,
    );
    compare_list(
        &expect.missing_permissions,
        &missing,
        "expected_missing_permissions_mismatch",
        &mut failures,
    );
    compare_list(
        &expect.permission_diagnostic_codes,
        &permission_codes,
        "expected_permission_diagnostic_codes_mismatch",
        &mut failures,
    );
    proof {
        assert(texts(failures@) =~= failures_of(case.expect, *report));
        assert(texts(failures@).len() == failures@.len());
    }
    PresetTestCaseResultV1 {
        name: case.name.clone(),
        platform: case.platform.runtime().as_str().to_owned(),
        passed: failures.len() == 0,
        actual_valid: report.valid,
        actual_ready: report.ready,
        actual_plan_kinds: kinds,
        actual_diagnostic_codes: codes,
        actual_step_diagnostic_codes: step_codes,
        actual_actions: actions,
        actual_required_permissions: required,
        actual_missing_permissions: missing,
        actual_permission_diagnostic_codes: permission_codes,
        failure_codes: failures,
    }
}

/// How many cases passed.
pub open spec fn passed_count(results: Seq<PresetTestCaseResultV1>) -> nat
    decreases results.len(),
{
    if results.len() == 0 {
        0
    } else {
        passed_count(results.drop_last()) + if results.last().passed {
            1nat
        } else {
            0nat
        }
    }
}

/// The report of the cases: it is valid where each of them passed.
pub fn finish_cases(results: Vec<PresetTestCaseResultV1>) -> (report: PresetTestReportV1)
    ensures
        report.schema_version == PRESET_TEST_SCHEMA_VERSION,
        report.diagnostics@.len() == 0,
        report.cases == results,
        report.summary.cases == results@.len(),
        report.summary.passed == passed_count(results@),
        report.summary.failed == results@.len() - passed_count(results@),
        report.valid == (passed_count(results@) == results@.len()),
{
    let mut passed: usize = 0;
    let mut i: usize = 0;
    proof {
        assert(results@.take(0) =~= Seq::<PresetTestCaseResultV1>::empty());
    }
    while i < results.len()
        invariant
            i <= results.len(),
            passed <= i,
            passed == passed_count(results@.take(i as int)),
        decreases results.len() - i,
    {
        proof {
            assert(results@.take(i as int + 1).drop_last() =~= results@.take(i as int));
            assert(results@.take(i as int + 1).last() == results@[i as int]);
        }
        if results[i].passed {
            passed += 1;
        }
        i += 1;
    }
    proof {
        assert(results@.take(results@.len() as int) =~= results@);
    }
    let failed: usize = results.len() - passed;
    PresetTestReportV1 {
        schema_version: PRESET_TEST_SCHEMA_VERSION,
        valid: failed == 0,
        diagnostics: Vec::new(),
        summary: PresetTestSummaryV1 { cases: results.len(), passed, failed },
        cases: results,
    }
}

proof fn lemma_all_passed(results: Seq<PresetTestCaseResultV1>)
    ensures
        passed_count(results) <= results.len(),
        passed_count(results) == results.len() <==> forall|i: int|
            0 <= i < results.len() ==> (#[trigger] results[i]).passed,
    decreases results.len(),
{
    if results.len() > 0 {
        let before = results.drop_last();
        lemma_all_passed(before);
        assert forall|i: int| 0 <= i < before.len() implies before[i] == results[i] by {}
        if passed_count(results) == results.len() {
            assert forall|i: int| 0 <= i < results.len() implies (#[trigger] results[i]).passed by {
                if i < before.len() {
                    assert(before[i].passed);
                }
            }
        }
        if forall|i: int| 0 <= i < results.len() ==> (#[trigger] results[i]).passed {
            assert forall|i: int| 0 <= i < before.len() implies (#[trigger] before[i]).passed by {
                assert(results[i].passed);
            }
            assert(results[results.len() - 1].passed);
        }
    }
}

/// A fixture passes exactly where each of its cases does.
pub proof fn law_fixture_passes_with_its_cases(results: Seq<PresetTestCaseResultV1>)
    ensures
        passed_count(results) == results.len() <==> forall|i: int|
            0 <= i < results.len() ==> (#[trigger] results[i]).passed,
{
    lemma_all_passed(results);
}

} // verus!
