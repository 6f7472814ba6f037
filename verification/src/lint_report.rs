//! The report of a lint: every finding once, in order, and counted.

use vstd::prelude::*;
use vstd::string::*;

use crate::context::RuntimePlatform;
use crate::inspection::ShellCategory;
use crate::lint::{
    app_category_findings, app_is_available, finding_views, lint_app, lint_shell, lint_sys,
    shell_findings, sys_findings, FindingView, PresetLintDiagnosticV1, PresetLintSeverity,
    SysLintPreset, PRESET_LINT_SCHEMA_VERSION,
};
use crate::plan::optional_text;
use crate::presets::PresetSnapshot;
use crate::runtime::app_categories_on;
use crate::sorted::{
    is_list_less, lemma_list_irreflexive, lemma_list_total, lemma_list_transitive, list_less,
};
use crate::text::{joined, push_text, texts};
use crate::validation::{
    preset_target, target_text, PresetCategoryValidation, PresetDiagnostic,
    PresetDiagnosticSeverity, PresetKind, PresetValidation,
};

verus! {

#[derive(Clone, Copy, Debug, PartialEq, Eq, Structural)]
pub struct PresetLintSummaryV1 {
    pub categories: usize,
    pub errors: usize,
    pub warnings: usize,
}

/// The report of a lint.
#[derive(Clone, Debug)]
pub struct PresetLintReportV1 {
    pub schema_version: u32,
    pub valid: bool,
    pub clean: bool,
    pub summary: PresetLintSummaryV1,
    pub diagnostics: Vec<PresetLintDiagnosticV1>,
}

/// A text that may be absent as a text of its own: an absent one comes first.
pub open spec fn optional_key(text: Option<Seq<char>>) -> Seq<char> {
    match text {
        None => Seq::empty(),
        Some(text) => "+"@ + text,
    }
}

/// What a finding is ordered by: its severity, its code, its target, its resource
/// and its message.
pub open spec fn finding_key(finding: FindingView) -> Seq<Seq<char>> {
    seq![
        match finding.severity {
            PresetLintSeverity::Error => "0"@,
            PresetLintSeverity::Warning => "1"@,
        },
        finding.code,
        optional_key(finding.target),
        optional_key(finding.resource),
        finding.message,
    ]
}

/// Whether a finding comes before another.
pub open spec fn finding_less(left: FindingView, right: FindingView) -> bool {
    list_less(finding_key(left), finding_key(right))
}

/// Whether findings are in order and none occurs twice.
pub open spec fn findings_ordered(list: Seq<FindingView>) -> bool {
    forall|i: int, j: int|
        0 <= i < j < list.len() ==> finding_less(#[trigger] list[i], #[trigger] list[j])
}

proof fn lemma_optional_key(left: Option<Seq<char>>, right: Option<Seq<char>>)
    requires
        optional_key(left) == optional_key(right),
    ensures
        left == right,
{
    reveal_strlit("+");
    let a = optional_key(left);
    let b = optional_key(right);
    if left is Some {
        assert(a.len() == left->0.len() + 1);
        assert(a.skip(1) =~= left->0);
    }
    if right is Some {
        assert(b.len() == right->0.len() + 1);
        assert(b.skip(1) =~= right->0);
    }
}

proof fn lemma_key_tells_findings_apart(left: FindingView, right: FindingView)
    requires
        finding_key(left) == finding_key(right),
    ensures
        left == right,
{
    let a = finding_key(left);
    let b = finding_key(right);
    assert(a[0] == b[0] && a[1] == b[1] && a[2] == b[2] && a[3] == b[3] && a[4] == b[4]);
    reveal_strlit("0");
    reveal_strlit("1");
    assert("0"@[0] != "1"@[0]);
    lemma_optional_key(left.target, right.target);
    lemma_optional_key(left.resource, right.resource);
}

/// Findings in order are told by what they are: there is one ordered list for
/// each set of findings.
pub proof fn law_report_depends_on_what_was_found(left: Seq<FindingView>, right: Seq<FindingView>)
    requires
        findings_ordered(left),
        findings_ordered(right),
        left.to_set() == right.to_set(),
    ensures
        left == right,
    decreases left.len(),
{
    if left.len() == 0 {
        if right.len() > 0 {
            assert(right.to_set().contains(right[0]));
            assert(left.to_set().contains(right[0]));
        }
        assert(left =~= right);
    } else {
        assert(left.to_set().contains(left[0]));
        assert(right.to_set().contains(left[0]));
        let k = choose|k: int| 0 <= k < right.len() && right[k] == left[0];
        assert(right.to_set().contains(right[0]));
        assert(left.to_set().contains(right[0]));
        let m = choose|m: int| 0 <= m < left.len() && left[m] == right[0];
        if k > 0 {
            assert(finding_less(right[0], right[k]));
            if m > 0 {
                assert(finding_less(left[0], left[m]));
                lemma_list_transitive(
                    finding_key(left[0]),
                    finding_key(left[m]),
                    finding_key(left[0]),
                );
            }
            lemma_list_irreflexive(finding_key(left[0]));
        }
        assert(left[0] == right[0]);
        let l = left.drop_first();
        let r = right.drop_first();
        assert(l.to_set() =~= r.to_set()) by {
            assert forall|t: FindingView| l.to_set().contains(t) <==> r.to_set().contains(t) by {
                if l.to_set().contains(t) {
                    let i = choose|i: int| 0 <= i < l.len() && l[i] == t;
                    assert(left[i + 1] == t);
                    assert(left.to_set().contains(t));
                    assert(right.to_set().contains(t));
                    let j = choose|j: int| 0 <= j < right.len() && right[j] == t;
                    if j == 0 {
                        assert(finding_less(left[0], left[i + 1]));
                        lemma_list_irreflexive(finding_key(t));
                    }
                    assert(r[j - 1] == t);
                }
                if r.to_set().contains(t) {
                    let i = choose|i: int| 0 <= i < r.len() && r[i] == t;
                    assert(right[i + 1] == t);
                    assert(right.to_set().contains(t));
                    assert(left.to_set().contains(t));
                    let j = choose|j: int| 0 <= j < left.len() && left[j] == t;
                    if j == 0 {
                        assert(finding_less(right[0], right[i + 1]));
                        lemma_list_irreflexive(finding_key(t));
                    }
                    assert(l[j - 1] == t);
                }
            }
        }
        law_report_depends_on_what_was_found(l, r);
        assert(left =~= seq![left[0]] + l);
        assert(right =~= seq![right[0]] + r);
    }
}

fn optional_key_of(text: &Option<String>) -> (key: String)
    ensures
        key@ == optional_key(optional_text(*text)),
{
    match text {
        None => {
            let key = String::new();
            proof {
                assert(key@ =~= Seq::<char>::empty());
            }
            key
        },
        Some(text) => joined("+", text.as_str()),
    }
}

fn key_of(finding: &PresetLintDiagnosticV1) -> (key: Vec<String>)
    ensures
        texts(key@) == finding_key(finding@),
{
    let mut key: Vec<String> = Vec::new();
    push_text(
        &mut key,
        match finding.severity {
            PresetLintSeverity::Error => "0",
            PresetLintSeverity::Warning => "1",
        },
    );
    push_text(&mut key, finding.code.as_str());
    push_text(&mut key, optional_key_of(&finding.target).as_str());
    push_text(&mut key, optional_key_of(&finding.resource).as_str());
    push_text(&mut key, finding.message.as_str());
    proof {
        assert(texts(key@) =~= finding_key(finding@));
    }
    key
}

fn insert_finding(list: &mut Vec<PresetLintDiagnosticV1>, finding: PresetLintDiagnosticV1)
    requires
        findings_ordered(finding_views(old(list)@)),
    ensures
        findings_ordered(finding_views(final(list)@)),
        finding_views(final(list)@).to_set() == finding_views(old(list)@).to_set().insert(
            finding@,
        ),
{
    let key = key_of(&finding);
    let ghost before = finding_views(list@);
    let ghost added = finding@;
    let mut i: usize = 0;
    while i < list.len() && is_list_less(&key_of(&list[i]), &key)
        invariant
            i <= list.len(),
            finding_views(list@) == before,
            texts(key@) == finding_key(added),
            forall|j: int| 0 <= j < i ==> finding_less(#[trigger] before[j], added),
        decreases list.len() - i,
    {
        proof {
            assert(before[i as int] == list@[i as int]@);
        }
        i += 1;
    }
    proof {
        if i < list.len() {
            assert(before[i as int] == list@[i as int]@);
            lemma_list_total(finding_key(before[i as int]), finding_key(added));
        }
    }
    if i < list.len() && !is_list_less(&key, &key_of(&list[i])) {
        proof {
            lemma_key_tells_findings_apart(before[i as int], added);
            assert(before.to_set().contains(added));
            assert(before.to_set().insert(added) =~= before.to_set());
        }
        return ;
    }
    list.insert(i, finding);
    proof {
        let after = finding_views(list@);
        assert(after =~= before.insert(i as int, added));
        assert forall|a: int, b: int| 0 <= a < b < after.len() implies finding_less(
            #[trigger] after[a],
            #[trigger] after[b],
        ) by {
            if b == i {
                assert(after[a] == before[a]);
            } else if a == i {
                assert(after[b] == before[b - 1]);
                if b - 1 > i {
                    assert(finding_less(before[i as int], before[b - 1]));
                    lemma_list_transitive(
                        finding_key(added),
                        finding_key(before[i as int]),
                        finding_key(before[b - 1]),
                    );
                }
            } else {
                let x = if a < i {
                    a
                } else {
                    a - 1
                };
                let y = if b < i {
                    b
                } else {
                    b - 1
                };
                assert(after[a] == before[x]);
                assert(after[b] == before[y]);
            }
        }
        assert(after.to_set() =~= before.to_set().insert(added)) by {
            assert forall|t: FindingView| after.to_set().contains(t) <==> before.to_set().insert(
                added,
            ).contains(t) by {
                if after.to_set().contains(t) {
                    let j = choose|j: int| 0 <= j < after.len() && after[j] == t;
                    if j < i {
                        assert(before[j] == t);
                    } else if j > i {
                        assert(before[j - 1] == t);
                    }
                }
                if t == added {
                    assert(after[i as int] == t);
                }
                if before.to_set().contains(t) {
                    let j = choose|j: int| 0 <= j < before.len() && before[j] == t;
                    if j < i {
                        assert(after[j] == t);
                    } else {
                        assert(after[j + 1] == t);
                    }
                }
            }
        }
    }
}

/// How many findings are errors.
pub open spec fn error_count(list: Seq<FindingView>) -> nat
    decreases list.len(),
{
    if list.len() == 0 {
        0
    } else {
        error_count(list.drop_last()) + if list.last().severity == PresetLintSeverity::Error {
            1nat
        } else {
            0nat
        }
    }
}

/// Whether a report holds exactly the findings: each once, in order, and counted.
pub open spec fn reports(
    report: PresetLintReportV1,
    categories: usize,
    found: Seq<FindingView>,
) -> bool {
    let list = finding_views(report.diagnostics@);
    &&& report.schema_version == PRESET_LINT_SCHEMA_VERSION
    &&& findings_ordered(list)
    &&& list.to_set() == found.to_set()
    &&& report.summary.categories == categories
    &&& report.summary.errors == error_count(list)
    &&& report.summary.warnings == list.len() - error_count(list)
    &&& report.valid == (report.summary.errors == 0)
    &&& report.clean == (list.len() == 0)
}

fn count_errors(list: &Vec<PresetLintDiagnosticV1>) -> (count: usize)
    ensures
        count == error_count(finding_views(list@)),
        count <= list@.len(),
{
    let ghost all = finding_views(list@);
    let mut count: usize = 0;
    let mut i: usize = 0;
    proof {
        assert(all.take(0) =~= Seq::<FindingView>::empty());
    }
    while i < list.len()
        invariant
            i <= list.len(),
            count <= i,
            all == finding_views(list@),
            count == error_count(all.take(i as int)),
        decreases list.len() - i,
    {
        proof {
            assert(all.take(i as int + 1).drop_last() =~= all.take(i as int));
            assert(all.take(i as int + 1).last() == list@[i as int]@);
        }
        if list[i].severity == PresetLintSeverity::Error {
            count += 1;
        }
        i += 1;
    }
    proof {
        assert(all.take(all.len() as int) =~= all);
    }
    count
}

proof fn lemma_push_finding(list: Seq<FindingView>, finding: FindingView)
    ensures
        list.push(finding).to_set() == list.to_set().insert(finding),
{
    let after = list.push(finding);
    assert(after.to_set() =~= list.to_set().insert(finding)) by {
        assert forall|t: FindingView| after.to_set().contains(t) <==> list.to_set().insert(
            finding,
        ).contains(t) by {
            if after.to_set().contains(t) {
                let j = choose|j: int| 0 <= j < after.len() && after[j] == t;
                if j < list.len() {
                    assert(list[j] == t);
                }
            }
            if t == finding {
                assert(after[list.len() as int] == t);
            }
            if list.to_set().contains(t) {
                let j = choose|j: int| 0 <= j < list.len() && list[j] == t;
                assert(after[j] == t);
            }
        }
    }
}

fn copy_finding(finding: &PresetLintDiagnosticV1) -> (copy: PresetLintDiagnosticV1)
    ensures
        copy@ == finding@,
{
    PresetLintDiagnosticV1 {
        severity: finding.severity,
        code: finding.code.clone(),
        target: crate::app_types::copy_optional(&finding.target),
        resource: crate::app_types::copy_optional(&finding.resource),
        message: finding.message.clone(),
    }
}

/// The report of the findings.
pub fn finish(categories: usize, found: Vec<PresetLintDiagnosticV1>) -> (report: PresetLintReportV1)
    ensures
        reports(report, categories, finding_views(found@)),
{
    let ghost all = finding_views(found@);
    let mut diagnostics: Vec<PresetLintDiagnosticV1> = Vec::new();
    let mut i: usize = 0;
    proof {
        assert(finding_views(diagnostics@).to_set() =~= all.take(0).to_set());
    }
    while i < found.len()
        invariant
            i <= found.len(),
            all == finding_views(found@),
            findings_ordered(finding_views(diagnostics@)),
            finding_views(diagnostics@).to_set() == all.take(i as int).to_set(),
        decreases found.len() - i,
    {
        insert_finding(&mut diagnostics, copy_finding(&found[i]));
        proof {
            assert(all.take(i as int + 1) =~= all.take(i as int).push(found@[i as int]@));
            lemma_push_finding(all.take(i as int), found@[i as int]@);
        }
        i += 1;
    }
    proof {
        assert(all.take(all.len() as int) =~= all);
    }
    let errors = count_errors(&diagnostics);
    let warnings: usize = diagnostics.len() - errors;
    PresetLintReportV1 {
        schema_version: PRESET_LINT_SCHEMA_VERSION,
        valid: errors == 0,
        clean: errors == 0 && warnings == 0,
        summary: PresetLintSummaryV1 { categories, errors, warnings },
        diagnostics,
    }
}

/// An error.
pub open spec fn error_of(code: Seq<char>, target: Option<Seq<char>>, message: Seq<char>) ->
    FindingView {
    FindingView { severity: PresetLintSeverity::Error, code, target, resource: None, message }
}

/// The report where the input could not be loaded.
pub fn lint_unloaded(code: &str) -> (report: PresetLintReportV1)
    ensures
        reports(
            report,
            0,
            seq![
                error_of(
                    code@,
                    None,
                    "preset input could not be loaded; run `shine preset validate` for path details"@,
                ),
            ],
        ),
{
    let mut found: Vec<PresetLintDiagnosticV1> = Vec::new();
    found.push(
        PresetLintDiagnosticV1 {
            severity: PresetLintSeverity::Error,
            code: code.to_owned(),
            target: None,
            resource: None,
            message:
                "preset input could not be loaded; run `shine preset validate` for path details".to_owned(),
        },
    );
    proof {
        assert(finding_views(found@) =~= seq![
            error_of(
                code@,
                None,
                "preset input could not be loaded; run `shine preset validate` for path details"@,
            ),
        ]);
    }
    finish(0, found)
}

/// An error of validation as a finding.
pub open spec fn validation_error_of(target: Option<Seq<char>>, code: Seq<char>) -> FindingView {
    error_of(
        code,
        target,
        "static validation failed; run `shine preset validate` for details"@,
    )
}

/// An error of validation as a finding.
pub fn validation_error(target: Option<String>, code: String) -> (finding: PresetLintDiagnosticV1)
    ensures
        finding@ == validation_error_of(optional_text(target), code@),
{
    PresetLintDiagnosticV1 {
        severity: PresetLintSeverity::Error,
        code,
        target,
        resource: None,
        message: "static validation failed; run `shine preset validate` for details".to_owned(),
    }
}

/// The errors among diagnostics, as findings.
pub open spec fn errors_in(list: Seq<PresetDiagnostic>, target: Option<Seq<char>>) -> Seq<
    FindingView,
>
    decreases list.len(),
{
    if list.len() == 0 {
        Seq::empty()
    } else {
        let before = errors_in(list.drop_last(), target);
        if list.last().severity == PresetDiagnosticSeverity::Error {
            before.push(validation_error_of(target, list.last().code@))
        } else {
            before
        }
    }
}

/// The errors of categories, as findings.
pub open spec fn category_errors(list: Seq<PresetCategoryValidation>) -> Seq<FindingView>
    decreases list.len(),
{
    if list.len() == 0 {
        Seq::empty()
    } else {
        category_errors(list.drop_last()) + errors_in(
            list.last().diagnostics@,
            Some(target_text(list.last().kind, list.last().name@)),
        )
    }
}

fn push_errors(
    list: &Vec<PresetDiagnostic>,
    target: &Option<String>,
    found: &mut Vec<PresetLintDiagnosticV1>,
)
    ensures
        finding_views(final(found)@) == finding_views(old(found)@) + errors_in(
            list@,
            optional_text(*target),
        ),
{
    let ghost before = finding_views(found@);
    let ghost wanted = optional_text(*target);
    let mut i: usize = 0;
    proof {
        assert(list@.take(0) =~= Seq::<PresetDiagnostic>::empty());
        assert(finding_views(found@) =~= before + errors_in(list@.take(0), wanted));
    }
    while i < list.len()
        invariant
            i <= list.len(),
            wanted == optional_text(*target),
            finding_views(found@) == before + errors_in(list@.take(i as int), wanted),
        decreases list.len() - i,
    {
        let ghost now = found@;
        proof {
            assert(list@.take(i as int + 1).drop_last() =~= list@.take(i as int));
            assert(list@.take(i as int + 1).last() == list@[i as int]);
        }
        if list[i].severity == PresetDiagnosticSeverity::Error {
            let finding = validation_error(
                crate::app_types::copy_optional(target),
                list[i].code.clone(),
            );
            let ghost added = finding@;
            found.push(finding);
            proof {
                assert(finding_views(found@) =~= finding_views(now).push(added));
                assert(finding_views(found@) =~= before + errors_in(
                    list@.take(i as int + 1),
                    wanted,
                ));
            }
        }
        i += 1;
    }
    proof {
        assert(list@.take(list@.len() as int) =~= list@);
    }
}

/// The report where validation failed: its errors, and no more.
pub fn lint_invalid(categories: usize, validation: &PresetValidation) -> (report:
    PresetLintReportV1)
    ensures
        reports(
            report,
            categories,
            errors_in(validation.diagnostics@, None) + category_errors(validation.categories@),
        ),
{
    let mut found: Vec<PresetLintDiagnosticV1> = Vec::new();
    push_errors(&validation.diagnostics, &None, &mut found);
    let ghost before = finding_views(found@);
    let ghost all = validation.categories@;
    let mut i: usize = 0;
    proof {
        assert(before =~= errors_in(validation.diagnostics@, None));
        assert(all.take(0) =~= Seq::<PresetCategoryValidation>::empty());
        assert(finding_views(found@) =~= before + category_errors(all.take(0)));
    }
    while i < validation.categories.len()
        invariant
            i <= validation.categories.len(),
            all == validation.categories@,
            finding_views(found@) == before + category_errors(all.take(i as int)),
        decreases validation.categories.len() - i,
    {
        let category = &validation.categories[i];
        proof {
            assert(all.take(i as int + 1).drop_last() =~= all.take(i as int));
            assert(all.take(i as int + 1).last() == *category);
        }
        let target = Some(preset_target(category.kind, category.name.as_str()));
        push_errors(&category.diagnostics, &target, &mut found);
        proof {
            assert(finding_views(found@) =~= before + category_errors(all.take(i as int + 1)));
        }
        i += 1;
    }
    proof {
        assert(all.take(all.len() as int) =~= all);
    }
    finish(categories, found)
}

/// A category to be linted. What shell and system presets hold is loaded before;
/// it is absent where it could not be.
#[derive(Clone, Debug)]
pub enum LintCategory {
    App { name: String },
    Shell { name: String, on_platforms: Vec<Option<ShellCategory>> },
    Sys { name: String, preset: Option<SysLintPreset> },
}

/// The finding where metadata could not be loaded.
pub open spec fn unavailable(kind: PresetKind, name: Seq<char>) -> FindingView {
    error_of(
        "lint_metadata_unavailable"@,
        Some(target_text(kind, name)),
        "validated metadata could not be loaded for linting"@,
    )
}

/// What could be better about an App category on a platform.
pub open spec fn app_findings(
    presets: PresetSnapshot,
    platform: RuntimePlatform,
    name: Seq<char>,
) -> Seq<FindingView> {
    match app_categories_on(platform, true, presets@, Some(name)) {
        Ok(categories) => app_category_findings(categories[0], name),
        Err(_) => seq![unavailable(PresetKind::App, name)],
    }
}

/// What could be better about a shell category on the platforms.
pub open spec fn shell_findings_on(
    name: Seq<char>,
    on_platforms: Seq<Option<ShellCategory>>,
) -> Seq<FindingView>
    decreases on_platforms.len(),
{
    if on_platforms.len() == 0 {
        Seq::empty()
    } else {
        shell_findings_on(name, on_platforms.drop_last()) + match on_platforms.last() {
            Some(category) => shell_findings(category, name),
            None => seq![unavailable(PresetKind::Shell, name)],
        }
    }
}

/// What could be better about a category.
pub open spec fn lint_findings(presets: PresetSnapshot, category: LintCategory) -> Seq<
    FindingView,
> {
    match category {
        LintCategory::App { name } => app_findings(presets, RuntimePlatform::Linux, name@)
            + app_findings(presets, RuntimePlatform::Macos, name@) + app_findings(
            presets,
            RuntimePlatform::Windows,
            name@,
        ),
        LintCategory::Shell { name, on_platforms } => shell_findings_on(name@, on_platforms@),
        LintCategory::Sys { name, preset } => match preset {
            Some(preset) => sys_findings(preset, name@),
            None => seq![unavailable(PresetKind::Sys, name@)],
        },
    }
}

/// What could be better about the categories.
pub open spec fn scope_findings(presets: PresetSnapshot, categories: Seq<LintCategory>) -> Seq<
    FindingView,
>
    decreases categories.len(),
{
    if categories.len() == 0 {
        Seq::empty()
    } else {
        scope_findings(presets, categories.drop_last()) + lint_findings(
            presets,
            categories.last(),
        )
    }
}

/// Whether every platform has the category.
pub open spec fn is_on_all_platforms(presets: PresetSnapshot, category: LintCategory) -> bool {
    match category {
        LintCategory::App { name } => {
            &&& app_is_available(presets, RuntimePlatform::Linux, name@)
            &&& app_is_available(presets, RuntimePlatform::Macos, name@)
            &&& app_is_available(presets, RuntimePlatform::Windows, name@)
        },
        _ => true,
    }
}

fn push_all(found: &mut Vec<PresetLintDiagnosticV1>, more: Vec<PresetLintDiagnosticV1>)
    ensures
        finding_views(final(found)@) == finding_views(old(found)@) + finding_views(more@),
{
    let ghost before = found@;
    let mut rest = more;
    found.append(&mut rest);
    proof {
        assert(finding_views(found@) =~= finding_views(before) + finding_views(more@));
    }
}

fn push_unavailable(found: &mut Vec<PresetLintDiagnosticV1>, kind: PresetKind, name: &str)
    ensures
        finding_views(final(found)@) == finding_views(old(found)@) + seq![unavailable(kind, name@)],
{
    let ghost before = found@;
    found.push(
        PresetLintDiagnosticV1 {
            severity: PresetLintSeverity::Error,
            code: "lint_metadata_unavailable".to_owned(),
            target: Some(preset_target(kind, name)),
            resource: None,
            message: "validated metadata could not be loaded for linting".to_owned(),
        },
    );
    proof {
        assert(finding_views(found@) =~= finding_views(before) + seq![unavailable(kind, name@)]);
    }
}

fn push_app_findings(
    presets: &PresetSnapshot,
    platform: RuntimePlatform,
    name: &str,
    found: &mut Vec<PresetLintDiagnosticV1>,
)
    requires
        app_is_available(*presets, platform, name@),
    ensures
        finding_views(final(found)@) == finding_views(old(found)@) + app_findings(
            *presets,
            platform,
            name@,
        ),
{
    match lint_app(presets, platform, name) {
        Ok(findings) => push_all(found, findings),
        Err(_) => push_unavailable(found, PresetKind::App, name),
    }
}

fn push_shell_findings(
    name: &str,
    on_platforms: &Vec<Option<ShellCategory>>,
    found: &mut Vec<PresetLintDiagnosticV1>,
)
    ensures
        finding_views(final(found)@) == finding_views(old(found)@) + shell_findings_on(
            name@,
            on_platforms@,
        ),
{
    let ghost before = finding_views(found@);
    let ghost all = on_platforms@;
    let mut i: usize = 0;
    proof {
        assert(all.take(0) =~= Seq::<Option<ShellCategory>>::empty());
        assert(finding_views(found@) =~= before + shell_findings_on(name@, all.take(0)));
    }
    while i < on_platforms.len()
        invariant
            i <= on_platforms.len(),
            all == on_platforms@,
            finding_views(found@) == before + shell_findings_on(name@, all.take(i as int)),
        decreases on_platforms.len() - i,
    {
        proof {
            assert(all.take(i as int + 1).drop_last() =~= all.take(i as int));
            assert(all.take(i as int + 1).last() == on_platforms@[i as int]);
        }
        match &on_platforms[i] {
            Some(category) => push_all(found, lint_shell(category, name)),
            None => push_unavailable(found, PresetKind::Shell, name),
        }
        proof {
            assert(finding_views(found@) =~= before + shell_findings_on(
                name@,
                all.take(i as int + 1),
            ));
        }
        i += 1;
    }
    proof {
        assert(all.take(all.len() as int) =~= all);
    }
}

fn push_findings(
    presets: &PresetSnapshot,
    category: &LintCategory,
    found: &mut Vec<PresetLintDiagnosticV1>,
)
    requires
        is_on_all_platforms(*presets, *category),
    ensures
        finding_views(final(found)@) == finding_views(old(found)@) + lint_findings(
            *presets,
            *category,
        ),
{
    let ghost before = finding_views(found@);
    match category {
        LintCategory::App { name } => {
            push_app_findings(presets, RuntimePlatform::Linux, name.as_str(), found);
            push_app_findings(presets, RuntimePlatform::Macos, name.as_str(), found);
            push_app_findings(presets, RuntimePlatform::Windows, name.as_str(), found);
        },
        LintCategory::Shell { name, on_platforms } => {
            push_shell_findings(name.as_str(), on_platforms, found);
        },
        LintCategory::Sys { name, preset } => {
            match preset {
                Some(preset) => push_all(found, lint_sys(preset, name.as_str())),
                None => push_unavailable(found, PresetKind::Sys, name.as_str()),
            }
        },
    }
    proof {
        assert(finding_views(found@) =~= before + lint_findings(*presets, *category));
    }
}

/// The report of the categories.
pub fn lint_scope(presets: &PresetSnapshot, categories: &Vec<LintCategory>) -> (report:
    PresetLintReportV1)
    requires
        forall|i: int|
            0 <= i < categories@.len() ==> is_on_all_platforms(
                *presets,
                #[trigger] categories@[i],
            ),
    ensures
        reports(report, categories.len(), scope_findings(*presets, categories@)),
{
    let mut found: Vec<PresetLintDiagnosticV1> = Vec::new();
    let ghost all = categories@;
    let mut i: usize = 0;
    proof {
        assert(all.take(0) =~= Seq::<LintCategory>::empty());
        assert(finding_views(found@) =~= scope_findings(*presets, all.take(0)));
    }
    while i < categories.len()
        invariant
            i <= categories.len(),
            all == categories@,
            forall|j: int|
                0 <= j < categories@.len() ==> is_on_all_platforms(
                    *presets,
                    #[trigger] categories@[j],
                ),
            finding_views(found@) == scope_findings(*presets, all.take(i as int)),
        decreases categories.len() - i,
    {
        proof {
            assert(all.take(i as int + 1).drop_last() =~= all.take(i as int));
            assert(all.take(i as int + 1).last() == categories@[i as int]);
        }
        push_findings(presets, &categories[i], &mut found);
        i += 1;
    }
    proof {
        assert(all.take(all.len() as int) =~= all);
    }
    finish(categories.len(), found)
}

} // verus!
