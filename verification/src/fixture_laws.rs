//! Which fixtures are accepted, when a case passes, and what is planned of a preset that
//! is being written.

use vstd::prelude::*;
use vstd::string::*;
use vstd::utf8::encode_utf8;

use crate::authoring::{
    assumptions_of, due_sections, is_plannable, items_of_mode, opening_diagnostics, planned_target,
    secret_env, without_paths, PresetAuthoringPlanReportV1, PresetAuthoringPlanSectionV1,
    PresetAuthoringSyntheticState, PresetSourceScope, SectionRequestView, SyntheticFileView,
    SysAuthoringItem, SysItemMode, TrustCapabilityV1,
};
use crate::context::RuntimePlatform;
use crate::env::is_env_key;
use crate::fixture::{
    aspect_texts, diagnostic_codes, document_fault, failures_of, names_valid, section_aspect,
    Aspect,
};
use crate::fixture_state::{
    commands_valid, environment_fault, fixture_files, fixture_path, host_fault, is_command_name,
    is_trust_target, receipt_document, receipt_files, secrets_fault, selected_trust, trust_fault,
    ReceiptReading, ReceiptReadings,
};
use crate::fixture_types::{
    FixtureDocumentV1, FixtureExpectationV1, FixtureFileV1, FixtureHostStateV1, FixturePathBaseV1,
};
use crate::lexical::trimmed;
use crate::lint_laws::is_of_one_machine;
use crate::path::{path_join, path_parts, same_path, PathStyle};
use crate::sorted::in_order;
use crate::text::texts;
use crate::validation::{PresetDiagnostic, PresetDiagnosticSeverity, PresetKind, PresetValidation};

verus! {

/// Whether no two of a list are the same.
pub open spec fn all_differ<A>(list: Seq<A>) -> bool {
    forall|i: int, j: int|
        0 <= i < j < list.len() ==> #[trigger] list[i] != #[trigger] list[j]
}

proof fn lemma_differ<A>(list: Seq<A>)
    requires
        list.len() > 0,
    ensures
        all_differ(list) <==> all_differ(list.drop_last()) && !list.drop_last().contains(
            list.last(),
        ),
{
    let head = list.drop_last();
    let last = list.len() - 1;
    assert(forall|i: int| 0 <= i < head.len() ==> head[i] == #[trigger] list[i]);
    if all_differ(list) {
        assert forall|i: int, j: int| 0 <= i < j < head.len() implies #[trigger] head[i]
            != #[trigger] head[j] by {
            assert(list[i] != list[j]);
        }
        if head.contains(list.last()) {
            let i = choose|i: int| 0 <= i < head.len() && head[i] == list.last();
            assert(list[i] != list[last]);
        }
    }
    if all_differ(head) && !head.contains(list.last()) {
        assert forall|i: int, j: int| 0 <= i < j < list.len() implies #[trigger] list[i]
            != #[trigger] list[j] by {
            assert(head[i] == list[i]);
            if j < last {
                assert(head[j] == list[j]);
            } else {
                assert(head.contains(head[i]));
            }
        }
    }
}

proof fn lemma_names(names: Seq<Seq<char>>)
    ensures
        names_valid(names) <==> all_differ(names) && forall|i: int|
            0 <= i < names.len() ==> trimmed(#[trigger] names[i]).len() > 0,
    decreases names.len(),
{
    if names.len() > 0 {
        let head = names.drop_last();
        lemma_names(head);
        lemma_differ(names);
        assert(names[names.len() - 1] == names.last());
        assert(forall|i: int| 0 <= i < head.len() ==> head[i] == #[trigger] names[i]);
        if names_valid(names) {
            assert forall|i: int| 0 <= i < names.len() implies trimmed(
                #[trigger] names[i],
            ).len() > 0 by {
                if i < head.len() {
                    assert(head[i] == names[i]);
                }
            }
        }
    }
}

/// A fixture is accepted exactly where its version is known, it has cases, and each of
/// them has a name of its own that is not blank.
pub proof fn law_fixtures_name_their_cases(document: FixtureDocumentV1)
    ensures
        document_fault(document) is None <==> {
            &&& document.schema_version == 1
            &&& document.cases@.len() > 0
            &&& forall|i: int|
                0 <= i < document.cases@.len() ==> trimmed(
                    (#[trigger] document.cases@[i]).name@,
                ).len() > 0
            &&& forall|i: int, j: int|
                0 <= i < j < document.cases@.len() ==> (#[trigger] document.cases@[i]).name@ != (
                #[trigger] document.cases@[j]).name@
        },
{
    let cases = document.cases@;
    let names = crate::fixture::case_names(cases);
    lemma_names(names);
    assert(forall|i: int| 0 <= i < cases.len() ==> names[i] == (#[trigger] cases[i]).name@);
    assert(names.len() == cases.len());
    if names_valid(names) {
        assert forall|i: int| 0 <= i < cases.len() implies trimmed(
            (#[trigger] cases[i]).name@,
        ).len() > 0 by {
            assert(trimmed(names[i]).len() > 0);
        }
        assert forall|i: int, j: int| 0 <= i < j < cases.len() implies (
        #[trigger] cases[i]).name@ != (#[trigger] cases[j]).name@ by {
            assert(names[i] != names[j]);
        }
    }
}

/// Whether an expected list, where there is one, is the one that was found, whatever the
/// order and however often each is named.
pub open spec fn list_is_met(expected: Option<Vec<String>>, found: Seq<Seq<char>>) -> bool {
    expected is Some ==> in_order(texts(expected->0@).to_set()) == in_order(found.to_set())
}

/// A case passes exactly where all that it expects was found: whether the plan is valid
/// and ready, and each list that it names.
pub proof fn law_cases_pass_when_expectations_are_met(
    expect: FixtureExpectationV1,
    report: PresetAuthoringPlanReportV1,
)
    ensures
        failures_of(expect, report).len() == 0 <==> {
            let plans = report.plans@;
            &&& expect.valid is Some ==> expect.valid->0 == report.valid
            &&& expect.ready is Some ==> expect.ready->0 == report.ready
            &&& list_is_met(expect.plan_kinds, aspect_texts(plans, Aspect::PlanKinds))
            &&& list_is_met(expect.diagnostic_codes, diagnostic_codes(report.diagnostics@))
            &&& list_is_met(
                expect.step_diagnostic_codes,
                aspect_texts(plans, Aspect::StepCodes),
            )
            &&& list_is_met(expect.actions, aspect_texts(plans, Aspect::Actions))
            &&& list_is_met(
                expect.required_permissions,
                aspect_texts(plans, Aspect::RequiredPermissions),
            )
            &&& list_is_met(
                expect.missing_permissions,
                aspect_texts(plans, Aspect::MissingPermissions),
            )
            &&& list_is_met(
                expect.permission_diagnostic_codes,
                aspect_texts(plans, Aspect::PermissionCodes),
            )
        },
{
}

/// What plans show of an aspect is what each of them shows of it, and nothing else.
pub proof fn law_aspects_are_those_of_the_plans(
    plans: Seq<PresetAuthoringPlanSectionV1>,
    aspect: Aspect,
    text: Seq<char>,
)
    ensures
        aspect_texts(plans, aspect).contains(text) <==> exists|i: int|
            0 <= i < plans.len() && section_aspect(#[trigger] plans[i], aspect).contains(text),
    decreases plans.len(),
{
    if plans.len() > 0 {
        let head = plans.drop_last();
        law_aspects_are_those_of_the_plans(head, aspect, text);
        let before = aspect_texts(head, aspect);
        let own = section_aspect(plans.last(), aspect);
        let all = before + own;
        assert(plans[plans.len() - 1] == plans.last());
        assert(forall|i: int| 0 <= i < head.len() ==> head[i] == #[trigger] plans[i]);
        if all.contains(text) {
            let k = choose|k: int| 0 <= k < all.len() && all[k] == text;
            if k < before.len() {
                assert(before[k] == text);
            } else {
                assert(own[k - before.len()] == text);
            }
        }
        if before.contains(text) {
            let k = choose|k: int| 0 <= k < before.len() && before[k] == text;
            assert(all[k] == text);
            let i = choose|i: int|
                0 <= i < head.len() && section_aspect(#[trigger] head[i], aspect).contains(text);
            assert(plans[i] == head[i]);
        }
        if own.contains(text) {
            let k = choose|k: int| 0 <= k < own.len() && own[k] == text;
            assert(all[before.len() + k] == text);
        }
        if exists|i: int|
            0 <= i < plans.len() && section_aspect(#[trigger] plans[i], aspect).contains(text) {
            let i = choose|i: int|
                0 <= i < plans.len() && section_aspect(#[trigger] plans[i], aspect).contains(text);
            if i < head.len() {
                assert(head[i] == plans[i]);
            }
        }
    }
}

/// The variables of a fixture are accepted exactly where each has a name that a variable
/// can have, and none is named twice.
pub proof fn law_variables_of_a_fixture(names: Seq<Seq<char>>)
    ensures
        environment_fault(names) is None <==> all_differ(names) && forall|i: int|
            0 <= i < names.len() ==> is_env_key(#[trigger] names[i]),
    decreases names.len(),
{
    if names.len() > 0 {
        let head = names.drop_last();
        law_variables_of_a_fixture(head);
        lemma_differ(names);
        assert(names[names.len() - 1] == names.last());
        assert(forall|i: int| 0 <= i < head.len() ==> head[i] == #[trigger] names[i]);
        if environment_fault(names) is None {
            assert forall|i: int| 0 <= i < names.len() implies is_env_key(#[trigger] names[i]) by {
                if i < head.len() {
                    assert(head[i] == names[i]);
                }
            }
        }
    }
}

/// The secrets of a fixture are accepted exactly where each has the name of a variable
/// that the fixture does not have otherwise, and a version that is not blank and not too
/// long.
pub proof fn law_secrets_of_a_fixture(
    secrets: Seq<(Seq<char>, Seq<char>)>,
    names: Seq<Seq<char>>,
)
    ensures
        secrets_fault(secrets, names) is None <==> forall|i: int|
            0 <= i < secrets.len() ==> {
                &&& is_env_key((#[trigger] secrets[i]).0)
                &&& trimmed(secrets[i].1).len() > 0
                &&& encode_utf8(secrets[i].1).len() <= 128
                &&& !names.contains(secrets[i].0)
            },
    decreases secrets.len(),
{
    if secrets.len() > 0 {
        let head = secrets.drop_last();
        law_secrets_of_a_fixture(head, names);
        assert(secrets[secrets.len() - 1] == secrets.last());
        assert(forall|i: int| 0 <= i < head.len() ==> head[i] == #[trigger] secrets[i]);
        if secrets_fault(secrets, names) is None {
            assert forall|i: int| 0 <= i < secrets.len() implies {
                &&& is_env_key((#[trigger] secrets[i]).0)
                &&& trimmed(secrets[i].1).len() > 0
                &&& encode_utf8(secrets[i].1).len() <= 128
                &&& !names.contains(secrets[i].0)
            } by {
                if i < head.len() {
                    assert(head[i] == secrets[i]);
                }
            }
        }
    }
}

/// A file of a fixture never leads up; under a directory it is relative and stands there;
/// an absolute one stands where it says, and not in the home directory of one machine.
pub proof fn law_paths_of_a_fixture(base: FixturePathBaseV1, value: Seq<char>)
    ensures
        ({
            let fine = value.len() > 0 && !path_parts(value, PathStyle::Unix).contains(
                seq!['.', '.'],
            );
            let rooted = value.len() > 0 && value[0] == '/';
            let home = "/shine-author/home"@;
            match fixture_path(base, value) {
                None => !fine || if base == FixturePathBaseV1::Absolute {
                    !rooted || is_of_one_machine(value)
                } else {
                    rooted
                },
                Some(path) => fine && match base {
                    FixturePathBaseV1::Absolute => rooted && !is_of_one_machine(value) && path
                        == value,
                    FixturePathBaseV1::Home => !rooted && path == path_join(home, value),
                    FixturePathBaseV1::Shine => !rooted && path == path_join(
                        path_join(home, ".shine"@),
                        value,
                    ),
                    FixturePathBaseV1::DataDir => !rooted && path == path_join(
                        path_join(home, ".local/share"@),
                        value,
                    ),
                    FixturePathBaseV1::Bin => !rooted && path == path_join(
                        path_join(path_join(home, ".shine"@), "bin"@),
                        value,
                    ),
                },
            }
        }),
{
}

/// The files of a fixture, where they are accepted, are those it names, each at its path
/// and with its content, no two at the same path, and none too large; a fixture of one
/// file whose path is accepted and that is not too large is accepted.
pub proof fn law_files_of_a_fixture(files: Seq<FixtureFileV1>)
    ensures
        match fixture_files(files) {
            Ok(found) => {
                &&& found.len() == files.len()
                &&& forall|i: int|
                    0 <= i < files.len() ==> {
                        &&& fixture_path((#[trigger] files[i]).base, files[i].path@) == Some(
                            found[i].path,
                        )
                        &&& found[i].content == encode_utf8(files[i].content@)
                        &&& found[i].content.len() <= 65536
                        &&& found[i].mode == 0o100644
                    }
                &&& forall|i: int, j: int|
                    0 <= i < j < found.len() ==> !same_path(
                        (#[trigger] found[i]).path,
                        (#[trigger] found[j]).path,
                    )
            },
            Err(_) => files.len() > 0,
        },
        files.len() == 1 && encode_utf8(files[0].content@).len() <= 65536 && fixture_path(
            files[0].base,
            files[0].path@,
        ) is Some ==> fixture_files(files) is Ok,
    decreases files.len(),
{
    if files.len() > 0 {
        let head = files.drop_last();
        law_files_of_a_fixture(head);
        assert(files[files.len() - 1] == files.last());
        assert(forall|i: int| 0 <= i < head.len() ==> head[i] == #[trigger] files[i]);
        if let Ok(before) = fixture_files(head) {
            if let Ok(found) = fixture_files(files) {
                assert forall|i: int| 0 <= i < files.len() implies {
                    &&& fixture_path((#[trigger] files[i]).base, files[i].path@) == Some(
                        found[i].path,
                    )
                    &&& found[i].content == encode_utf8(files[i].content@)
                    &&& found[i].content.len() <= 65536
                    &&& found[i].mode == 0o100644
                } by {
                    if i < head.len() {
                        assert(head[i] == files[i]);
                        assert(found[i] == before[i]);
                    }
                }
                assert forall|i: int, j: int| 0 <= i < j < found.len() implies !same_path(
                    (#[trigger] found[i]).path,
                    (#[trigger] found[j]).path,
                ) by {
                    assert(found[i] == before[i]);
                    if j < before.len() {
                        assert(found[j] == before[j]);
                    } else {
                        assert(!crate::fixture_state::is_taken(before, found[j].path));
                    }
                }
            }
        }
        if files.len() == 1 {
            assert(head.len() == 0);
            assert(fixture_files(head) == Ok::<
                Seq<SyntheticFileView>,
                crate::fixture_types::FixtureFault,
            >(Seq::empty()));
        }
    }
}

/// The commands of a fixture are accepted exactly where each can be the name of a command,
/// and none is named twice.
pub proof fn law_commands_of_a_fixture(commands: Seq<Seq<char>>)
    ensures
        commands_valid(commands) <==> all_differ(commands) && forall|i: int|
            0 <= i < commands.len() ==> {
                &&& (#[trigger] commands[i]).len() > 0
                &&& !commands[i].contains('/') && !commands[i].contains('\\')
                &&& !crate::lexical::has_white(commands[i])
            },
    decreases commands.len(),
{
    if commands.len() > 0 {
        let head = commands.drop_last();
        law_commands_of_a_fixture(head);
        lemma_differ(commands);
        assert(commands[commands.len() - 1] == commands.last());
        assert(forall|i: int| 0 <= i < head.len() ==> head[i] == #[trigger] commands[i]);
        if commands_valid(commands) {
            assert forall|i: int| 0 <= i < commands.len() implies {
                &&& (#[trigger] commands[i]).len() > 0
                &&& !commands[i].contains('/') && !commands[i].contains('\\')
                &&& !crate::lexical::has_white(commands[i])
            } by {
                if i < head.len() {
                    assert(head[i] == commands[i]);
                } else {
                    assert(is_command_name(commands[i]));
                }
            }
        }
    }
}

/// The trust that a fixture gives is accepted exactly where each target can be trusted and
/// nothing is trusted twice.
pub proof fn law_trust_of_a_fixture(list: Seq<(Seq<char>, TrustCapabilityV1)>)
    ensures
        trust_fault(list) is None <==> all_differ(list) && forall|i: int|
            0 <= i < list.len() ==> is_trust_target((#[trigger] list[i]).0),
    decreases list.len(),
{
    if list.len() > 0 {
        let head = list.drop_last();
        law_trust_of_a_fixture(head);
        lemma_differ(list);
        assert(list[list.len() - 1] == list.last());
        assert(forall|i: int| 0 <= i < head.len() ==> head[i] == #[trigger] list[i]);
        if trust_fault(list) is None {
            assert forall|i: int| 0 <= i < list.len() implies is_trust_target(
                (#[trigger] list[i]).0,
            ) by {
                if i < head.len() {
                    assert(head[i] == list[i]);
                }
            }
        }
    }
}

/// A receipt of a fixture becomes one file of the host, in the version that is supported,
/// with its placeholders filled in; one that is absent becomes none.
pub proof fn law_receipts_of_a_fixture(
    document: Option<Seq<char>>,
    name: Seq<char>,
    reading: ReceiptReading,
)
    ensures
        match receipt_files(document, name, reading) {
            Ok(files) => match document {
                None => files.len() == 0,
                Some(document) => {
                    &&& files.len() == 1
                    &&& receipt_document(document) is Ok
                    &&& files[0].content == encode_utf8(receipt_document(document)->Ok_0)
                    &&& files[0].path == path_join(
                        path_join("/shine-author/home"@, ".shine"@),
                        name,
                    )
                    &&& reading is Schema && reading->found == reading->supported
                },
            },
            Err(_) => document is Some && (receipt_document(document->0) is Err
                || reading is Unreadable || reading is Schema && reading->found
                != reading->supported),
        },
{
}

/// A fixture is accepted exactly where each part of it is.
pub proof fn law_fixtures_are_accepted_part_by_part(
    fixture: FixtureHostStateV1,
    readings: ReceiptReadings,
)
    ensures
        host_fault(fixture, readings) is None <==> {
            &&& environment_fault(texts(fixture.environment@)) is None
            &&& secrets_fault(
                crate::authoring::secret_views(fixture.secret_versions@),
                texts(fixture.environment@),
            ) is None
            &&& fixture_files(fixture.files@) is Ok
            &&& commands_valid(texts(fixture.commands@))
            &&& receipt_files(
                crate::plan::optional_text(fixture.receipts.app),
                "app-manifest.toml"@,
                readings.app,
            ) is Ok
            &&& receipt_files(
                crate::plan::optional_text(fixture.receipts.shell),
                "shell-manifest.toml"@,
                readings.shell,
            ) is Ok
            &&& receipt_files(
                crate::plan::optional_text(fixture.receipts.sys),
                "sys-manifest.toml"@,
                readings.sys,
            ) is Ok
            &&& trust_fault(selected_trust(fixture.trust@)) is None
        },
{
}

proof fn lemma_kept(list: Seq<PresetDiagnostic>, severity: PresetDiagnosticSeverity)
    ensures
        forall|i: int|
            0 <= i < without_paths(list, severity).len() ==> (#[trigger] without_paths(
                list,
                severity,
            )[i]).severity == severity,
        without_paths(list, severity).len() > 0 <==> exists|i: int|
            0 <= i < list.len() && (#[trigger] list[i]).severity == severity,
    decreases list.len(),
{
    if list.len() > 0 {
        let head = list.drop_last();
        lemma_kept(head, severity);
        let before = without_paths(head, severity);
        let all = without_paths(list, severity);
        assert(list[list.len() - 1] == list.last());
        assert(forall|i: int| 0 <= i < head.len() ==> head[i] == #[trigger] list[i]);
        assert forall|i: int| 0 <= i < all.len() implies (#[trigger] all[i]).severity
            == severity by {
            if i < before.len() {
                assert(all[i] == before[i]);
            }
        }
        if before.len() > 0 {
            let i = choose|i: int| 0 <= i < head.len() && (#[trigger] head[i]).severity == severity;
            assert(list[i] == head[i]);
        }
    }
}

/// A plan is made of one category that is valid. Where none is made the first thing that
/// is said is an error; where one is made nothing that is said is one.
pub proof fn law_plans_are_made_of_one_valid_category(
    scope: PresetSourceScope,
    validation: PresetValidation,
    index: int,
)
    ensures
        ({
            let said = opening_diagnostics(scope, validation);
            let one = scope.categories@.len() == 1 && (same_path(
                scope.canonical@,
                scope.categories@[0].root@,
            ) || same_path(
                scope.canonical@,
                path_join(scope.categories@[0].root@, "shine.toml"@),
            ));
            &&& is_plannable(scope, validation) <==> one && validation.valid
            &&& planned_target(scope) is Some <==> one
            &&& !is_plannable(scope, validation) ==> said.len() > 0 && said[0].severity
                == PresetDiagnosticSeverity::Error
            &&& !one ==> said.len() == 1 && said[0].code == "single_category_required"@
            &&& one && !validation.valid ==> said[0].code == "preset_validation_failed"@
            &&& is_plannable(scope, validation) && 0 <= index < said.len() ==> said[index].severity
                == PresetDiagnosticSeverity::Warning
        }),
{
    if is_plannable(scope, validation) {
        lemma_kept(
            validation.categories@[0].diagnostics@,
            PresetDiagnosticSeverity::Warning,
        );
    }
}

proof fn lemma_items(items: Seq<SysAuthoringItem>, mode: SysItemMode, id: Seq<char>)
    ensures
        items_of_mode(items, mode).contains(id) <==> exists|i: int|
            0 <= i < items.len() && (#[trigger] items[i]).mode == mode && items[i].id@ == id,
        items_of_mode(items, mode).len() > 0 <==> exists|i: int|
            0 <= i < items.len() && (#[trigger] items[i]).mode == mode,
    decreases items.len(),
{
    if items.len() > 0 {
        let head = items.drop_last();
        lemma_items(head, mode, id);
        let before = items_of_mode(head, mode);
        let all = items_of_mode(items, mode);
        assert(items[items.len() - 1] == items.last());
        assert(forall|i: int| 0 <= i < head.len() ==> head[i] == #[trigger] items[i]);
        if before.len() > 0 {
            let i = choose|i: int| 0 <= i < head.len() && (#[trigger] head[i]).mode == mode;
            assert(items[i] == head[i]);
        }
        if before.contains(id) {
            let i = choose|i: int|
                0 <= i < head.len() && (#[trigger] head[i]).mode == mode && head[i].id@ == id;
            assert(items[i] == head[i]);
            let k = choose|k: int| 0 <= k < before.len() && before[k] == id;
            assert(all[k] == id);
        }
        if items.last().mode == mode {
            assert(all == before.push(items.last().id@));
            assert(all[before.len() as int] == items.last().id@);
            if all.contains(id) {
                let k = choose|k: int| 0 <= k < all.len() && all[k] == id;
                if k < before.len() {
                    assert(before[k] == id);
                }
            }
        }
    }
}

/// The plans that are asked for: one for an App or a shell preset; for a system preset one
/// for its managed items where it has any, and one for the items of its bootstrap, all of
/// them, where it has any.
pub proof fn law_each_kind_of_preset_is_planned(
    kind: PresetKind,
    items: Seq<SysAuthoringItem>,
    platform: RuntimePlatform,
    id: Seq<char>,
)
    ensures
        ({
            let due = due_sections(kind, items, platform);
            let managed = exists|i: int|
                0 <= i < items.len() && (#[trigger] items[i]).mode == SysItemMode::Managed;
            let initial = exists|i: int|
                0 <= i < items.len() && (#[trigger] items[i]).mode == SysItemMode::Init;
            &&& kind == PresetKind::App ==> due == seq![SectionRequestView::AppInstall]
            &&& kind == PresetKind::Shell ==> due == seq![SectionRequestView::ShellInstall]
            &&& kind == PresetKind::Sys ==> {
                &&& due.len() == (if managed {
                    1int
                } else {
                    0int
                }) + (if initial {
                    1int
                } else {
                    0int
                })
                &&& managed ==> due[0] == SectionRequestView::SysManagedInstall
                &&& initial ==> due.last() is SysBootstrap && (due.last()->item_ids.contains(id)
                    <==> exists|i: int|
                    0 <= i < items.len() && (#[trigger] items[i]).mode == SysItemMode::Init
                        && items[i].id@ == id)
                &&& initial ==> due.last()->sys_shell == if platform == RuntimePlatform::Windows {
                    "powershell"@
                } else {
                    "zsh"@
                }
            }
        }),
{
    lemma_items(items, SysItemMode::Managed, id);
    lemma_items(items, SysItemMode::Init, id);
}

/// What a plan takes for granted says of variables, secrets and trust only how many there
/// are: two hosts with as many of each are told alike.
pub proof fn law_assumptions_tell_no_values(
    left: PresetAuthoringSyntheticState,
    right: PresetAuthoringSyntheticState,
)
    requires
        left.lifecycle_state_present == right.lifecycle_state_present,
        left.environment@.len() == right.environment@.len(),
        left.secret_versions@.len() == right.secret_versions@.len(),
        left.trusted_capabilities@.len() == right.trusted_capabilities@.len(),
        left.path_env is Some <==> right.path_env is Some,
        left.running_as_admin == right.running_as_admin,
    ensures
        assumptions_of(left) == assumptions_of(right),
        assumptions_of(left).administrator == left.running_as_admin,
        left.environment@.len() == 0 <==> assumptions_of(left).environment == "absent"@,
        left.secret_versions@.len() == 0 <==> assumptions_of(left).secrets == "absent"@,
{
    reveal_strlit("absent");
    reveal_strlit("provided");
    reveal_strlit("versioned");
    assert("absent"@[0] == 'a');
    let digits = crate::text::decimal_digits(left.environment@.len());
    assert(("provided"@ + ":"@ + digits)[0] == 'p');
    let others = crate::text::decimal_digits(left.secret_versions@.len());
    assert(("versioned"@ + ":"@ + others)[0] == 'v');
}

/// A secret stands in the environment under its name, by its version alone.
pub proof fn law_secrets_stand_by_their_versions(
    secrets: Seq<(Seq<char>, Seq<char>)>,
    index: int,
)
    requires
        0 <= index < secrets.len(),
    ensures
        secret_env(secrets).len() == secrets.len(),
        secret_env(secrets)[index].0 == secrets[index].0,
        secret_env(secrets)[index].1 == "<secret-version:"@ + secrets[index].1 + ">"@,
{
}

} // verus!
