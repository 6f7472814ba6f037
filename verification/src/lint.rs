//! What could be better about presets that are valid.

use vstd::prelude::*;
use vstd::string::*;

use crate::app_types::{
    app_file_views, category_views, copy_optional, optional_permissions, AppCategory,
    AppCategoryView, AppDestinationRoot, AppFileView, DeclaredNetworkScopeV1,
    DestinationRootView, FilesystemDeclarationV1, NetworkDeclarationV1, PermissionDeclarationV1,
    PermissionDeclarationView, PermissionPathBaseV1,
};
use crate::app_dest::MetadataError;
use crate::context::RuntimePlatform;
use crate::inspection::{ShellCategory, ShellFile};
use crate::lexical::{
    is_blank, lowered, replace_char, replaced, to_ascii_lowercase, trimmed,
};
use crate::plan::optional_text;
use crate::presets::PresetSnapshot;
use crate::runtime::{app_categories_on, find_app_categories};
use crate::text::{begins_with, joined, starts_with};
use crate::validation::{preset_target, target_text, PresetKind};

verus! {

/// The schema of lint reports.
pub const PRESET_LINT_SCHEMA_VERSION: u32 = 1;

#[derive(Clone, Copy, Debug, PartialEq, Eq, PartialOrd, Ord, Structural)]
pub enum PresetLintSeverity {
    Error,
    Warning,
}

/// One thing that could be better.
#[derive(Clone, Debug)]
pub struct PresetLintDiagnosticV1 {
    pub severity: PresetLintSeverity,
    pub code: String,
    pub target: Option<String>,
    pub resource: Option<String>,
    pub message: String,
}

/// One thing that could be better, by the values.
pub ghost struct FindingView {
    pub severity: PresetLintSeverity,
    pub code: Seq<char>,
    pub target: Option<Seq<char>>,
    pub resource: Option<Seq<char>>,
    pub message: Seq<char>,
}

impl View for PresetLintDiagnosticV1 {
    type V = FindingView;

    open spec fn view(&self) -> FindingView {
        FindingView {
            severity: self.severity,
            code: self.code@,
            target: optional_text(self.target),
            resource: optional_text(self.resource),
            message: self.message@,
        }
    }
}

/// The views of a list of findings.
pub open spec fn finding_views(list: Seq<PresetLintDiagnosticV1>) -> Seq<FindingView> {
    list.map_values(|item: PresetLintDiagnosticV1| item@)
}

/// A warning.
pub open spec fn warning_of(
    code: Seq<char>,
    target: Seq<char>,
    resource: Option<Seq<char>>,
    message: Seq<char>,
) -> FindingView {
    FindingView {
        severity: PresetLintSeverity::Warning,
        code,
        target: Some(target),
        resource,
        message,
    }
}

/// A warning.
pub fn warning(code: &str, target: &str, resource: Option<String>, message: &str) -> (finding:
    PresetLintDiagnosticV1)
    ensures
        finding@ == warning_of(code@, target@, optional_text(resource), message@),
{
    PresetLintDiagnosticV1 {
        severity: PresetLintSeverity::Warning,
        code: code.to_owned(),
        target: Some(target.to_owned()),
        resource,
        message: message.to_owned(),
    }
}

/// A list of one finding where it holds, else of none.
pub open spec fn only_if(holds: bool, finding: FindingView) -> Seq<FindingView> {
    if holds {
        seq![finding]
    } else {
        Seq::empty()
    }
}

fn warn_if(
    findings: &mut Vec<PresetLintDiagnosticV1>,
    holds: bool,
    code: &str,
    target: &str,
    resource: &Option<String>,
    message: &str,
)
    ensures
        finding_views(final(findings)@) == finding_views(old(findings)@) + only_if(
            holds,
            warning_of(code@, target@, optional_text(*resource), message@),
        ),
{
    let ghost before = findings@;
    if holds {
        findings.push(warning(code, target, copy_optional(resource), message));
    }
    proof {
        assert(finding_views(findings@) =~= finding_views(before) + only_if(
            holds,
            warning_of(code@, target@, optional_text(*resource), message@),
        ));
    }
}

/// Whether a path seems to be in the home directory of one machine.
pub open spec fn is_private_path(value: Seq<char>) -> bool {
    let normal = replaced(value, '\\', '/');
    ||| begins_with(normal, "/Users/"@)
    ||| begins_with(normal, "/home/"@)
    ||| begins_with(lowered(normal), "c:/users/"@)
}

/// Whether the path seems to be in the home directory of one machine.
pub fn private_absolute_path(value: &str) -> (result: bool)
    ensures
        result == is_private_path(value@),
{
    let normal = replace_char(value, '\\', '/');
    let lower = to_ascii_lowercase(normal.as_str());
    starts_with(normal.as_str(), "/Users/") || starts_with(normal.as_str(), "/home/")
        || starts_with(lower.as_str(), "c:/users/")
}

/// Whether the network is declared without a limit.
pub open spec fn is_network_broad(network: Seq<NetworkDeclarationV1>) -> bool {
    exists|i: int|
        0 <= i < network.len() && (#[trigger] network[i]).scope == DeclaredNetworkScopeV1::Any
}

/// Whether a private path is declared.
pub open spec fn has_private_path(filesystem: Seq<(PermissionPathBaseV1, Seq<char>)>) -> bool {
    exists|i: int|
        0 <= i < filesystem.len() && (#[trigger] filesystem[i]).0 == PermissionPathBaseV1::Absolute
            && is_private_path(filesystem[i].1)
}

/// What could be better about declared permissions.
pub open spec fn permission_findings(
    declaration: Option<PermissionDeclarationView>,
    target: Seq<char>,
    resource: Option<Seq<char>>,
) -> Seq<FindingView> {
    match declaration {
        None => Seq::empty(),
        Some(declaration) => only_if(
            is_network_broad(declaration.network),
            warning_of(
                "broad_network_permission"@,
                target,
                resource,
                "network scope `any` should be narrowed to known hosts when possible"@,
            ),
        ) + only_if(
            has_private_path(declaration.filesystem),
            warning_of(
                "private_absolute_path"@,
                target,
                resource,
                "filesystem permission appears to contain a private machine home path"@,
            ),
        ),
    }
}

fn network_is_broad(network: &Vec<NetworkDeclarationV1>) -> (found: bool)
    ensures
        found == is_network_broad(network@),
{
    let mut i: usize = 0;
    while i < network.len()
        invariant
            i <= network.len(),
            forall|j: int|
                0 <= j < i ==> (#[trigger] network@[j]).scope != DeclaredNetworkScopeV1::Any,
        decreases network.len() - i,
    {
        if network[i].scope == DeclaredNetworkScopeV1::Any {
            return true;
        }
        i += 1;
    }
    false
}

fn names_private_path(filesystem: &Vec<FilesystemDeclarationV1>) -> (found: bool)
    ensures
        found == has_private_path(crate::app_types::filesystem_views(filesystem@)),
{
    let ghost all = crate::app_types::filesystem_views(filesystem@);
    let mut i: usize = 0;
    while i < filesystem.len()
        invariant
            i <= filesystem.len(),
            all == crate::app_types::filesystem_views(filesystem@),
            forall|j: int|
                0 <= j < i ==> !((#[trigger] all[j]).0 == PermissionPathBaseV1::Absolute
                    && is_private_path(all[j].1)),
        decreases filesystem.len() - i,
    {
        let item = &filesystem[i];
        proof {
            assert(all[i as int] == (item.base, item.path@));
        }
        if item.base == PermissionPathBaseV1::Absolute && private_absolute_path(
            item.path.as_str(),
        ) {
            assert(all[i as int].0 == PermissionPathBaseV1::Absolute);
            return true;
        }
        i += 1;
    }
    false
}

/// Adds what could be better about the declared permissions.
pub fn lint_permissions(
    declaration: &Option<PermissionDeclarationV1>,
    target: &str,
    resource: &Option<String>,
    findings: &mut Vec<PresetLintDiagnosticV1>,
)
    ensures
        finding_views(final(findings)@) == finding_views(old(findings)@) + permission_findings(
            optional_permissions(*declaration),
            target@,
            optional_text(*resource),
        ),
{
    let ghost before = finding_views(findings@);
    if let Some(declaration) = declaration {
        let broad = network_is_broad(&declaration.network);
        warn_if(
            findings,
            broad,
            "broad_network_permission",
            target,
            resource,
            "network scope `any` should be narrowed to known hosts when possible",
        );
        let private = names_private_path(&declaration.filesystem);
        warn_if(
            findings,
            private,
            "private_absolute_path",
            target,
            resource,
            "filesystem permission appears to contain a private machine home path",
        );
    }
    proof {
        assert(finding_views(findings@) =~= before + permission_findings(
            optional_permissions(*declaration),
            target@,
            optional_text(*resource),
        ));
    }
}

/// Whether a description is missing or empty.
pub open spec fn lacks_description(description: Option<Seq<char>>) -> bool {
    match description {
        Some(description) => description.len() == 0,
        None => true,
    }
}

fn description_missing(description: &Option<String>) -> (missing: bool)
    ensures
        missing == lacks_description(optional_text(*description)),
{
    match description {
        Some(description) => description.as_str().is_empty(),
        None => true,
    }
}

/// What could be better about a category as a whole.
pub open spec fn category_findings(
    target: Seq<char>,
    uses_metadata: bool,
    description: Option<Seq<char>>,
) -> Seq<FindingView> {
    only_if(
        !uses_metadata,
        warning_of(
            "legacy_metadata"@,
            target,
            None,
            "explicit shine.toml metadata is recommended"@,
        ),
    ) + only_if(
        lacks_description(description),
        warning_of(
            "missing_category_description"@,
            target,
            None,
            "category has no human-facing description"@,
        ),
    )
}

fn lint_category(
    target: &str,
    uses_metadata: bool,
    description: &Option<String>,
    findings: &mut Vec<PresetLintDiagnosticV1>,
)
    ensures
        finding_views(final(findings)@) == finding_views(old(findings)@) + category_findings(
            target@,
            uses_metadata,
            optional_text(*description),
        ),
{
    let ghost before = finding_views(findings@);
    warn_if(
        findings,
        !uses_metadata,
        "legacy_metadata",
        target,
        &None,
        "explicit shine.toml metadata is recommended",
    );
    let missing = description_missing(description);
    warn_if(
        findings,
        missing,
        "missing_category_description",
        target,
        &None,
        "category has no human-facing description",
    );
    proof {
        assert(finding_views(findings@) =~= before + category_findings(
            target@,
            uses_metadata,
            optional_text(*description),
        ));
    }
}

/// Whether a file goes to a private path.
pub open spec fn goes_to_private_path(root: Option<DestinationRootView>) -> bool {
    match root {
        Some(DestinationRootView::Path { path }) => is_private_path(path),
        _ => false,
    }
}

/// What could be better about an App file.
pub open spec fn file_findings(target: Seq<char>, file: AppFileView) -> Seq<FindingView> {
    let resource = Some(replaced(file.source_rel, '\\', '/'));
    only_if(
        lacks_description(file.description),
        warning_of(
            "missing_resource_description"@,
            target,
            resource,
            "App file has no human-facing description"@,
        ),
    ) + only_if(
        goes_to_private_path(file.destination_root),
        warning_of(
            "private_absolute_path"@,
            target,
            resource,
            "App file destination appears to contain a private machine home path"@,
        ),
    )
}

/// What could be better about App files.
pub open spec fn files_findings(target: Seq<char>, files: Seq<AppFileView>) -> Seq<FindingView>
    decreases files.len(),
{
    if files.len() == 0 {
        Seq::empty()
    } else {
        files_findings(target, files.drop_last()) + file_findings(target, files.last())
    }
}

/// Whether the directory of a category is a private path.
pub open spec fn root_is_private(root: Option<Seq<char>>) -> bool {
    match root {
        Some(root) => is_private_path(root),
        None => false,
    }
}

/// What could be better about an App category.
pub open spec fn app_category_findings(category: AppCategoryView, name: Seq<char>) -> Seq<
    FindingView,
> {
    let target = target_text(PresetKind::App, name);
    category_findings(target, category.uses_metadata, category.description) + only_if(
        root_is_private(category.destination_root),
        warning_of(
            "private_absolute_path"@,
            target,
            None,
            "category destination appears to contain a private machine home path"@,
        ),
    ) + files_findings(target, category.files) + permission_findings(
        category.permissions,
        target,
        None,
    )
}

fn lint_files(category: &AppCategory, target: &str, findings: &mut Vec<PresetLintDiagnosticV1>)
    ensures
        finding_views(final(findings)@) == finding_views(old(findings)@) + files_findings(
            target@,
            category@.files,
        ),
{
    let ghost before = finding_views(findings@);
    let ghost files = category@.files;
    let mut i: usize = 0;
    proof {
        assert(files.take(0) =~= Seq::<AppFileView>::empty());
        assert(finding_views(findings@) =~= before + files_findings(target@, files.take(0)));
    }
    while i < category.files.len()
        invariant
            i <= category.files.len(),
            files == app_file_views(category.files@),
            finding_views(findings@) == before + files_findings(target@, files.take(i as int)),
        decreases category.files.len() - i,
    {
        let file = &category.files[i];
        proof {
            assert(files.take(i as int + 1).drop_last() =~= files.take(i as int));
            assert(files.take(i as int + 1).last() == file@);
        }
        let resource = Some(replace_char(file.source_rel.as_str(), '\\', '/'));
        let missing = description_missing(&file.description);
        warn_if(
            findings,
            missing,
            "missing_resource_description",
            target,
            &resource,
            "App file has no human-facing description",
        );
        let private = match &file.destination_root {
            Some(AppDestinationRoot::Path(path)) => private_absolute_path(path.as_str()),
            _ => false,
        };
        warn_if(
            findings,
            private,
            "private_absolute_path",
            target,
            &resource,
            "App file destination appears to contain a private machine home path",
        );
        proof {
            assert(finding_views(findings@) =~= before + files_findings(
                target@,
                files.take(i as int + 1),
            ));
        }
        i += 1;
    }
    proof {
        assert(files.take(files.len() as int) =~= files);
    }
}

/// What could be better about the App category.
pub fn lint_app_category(category: &AppCategory, name: &str) -> (findings: Vec<
    PresetLintDiagnosticV1,
>)
    ensures
        finding_views(findings@) == app_category_findings(category@, name@),
{
    let target = preset_target(PresetKind::App, name);
    let mut findings: Vec<PresetLintDiagnosticV1> = Vec::new();
    lint_category(
        target.as_str(),
        category.uses_metadata,
        &category.description,
        &mut findings,
    );
    let private = match &category.destination_root {
        Some(root) => private_absolute_path(root.as_str()),
        None => false,
    };
    warn_if(
        &mut findings,
        private,
        "private_absolute_path",
        target.as_str(),
        &None,
        "category destination appears to contain a private machine home path",
    );
    lint_files(category, target.as_str(), &mut findings);
    lint_permissions(&category.permissions, target.as_str(), &None, &mut findings);
    proof {
        assert(finding_views(findings@) =~= app_category_findings(category@, name@));
    }
    findings
}

/// Whether a platform has the category, unless its metadata is invalid.
pub open spec fn app_is_available(
    presets: PresetSnapshot,
    platform: RuntimePlatform,
    name: Seq<char>,
) -> bool {
    match app_categories_on(platform, true, presets@, Some(name)) {
        Ok(categories) => categories.len() > 0,
        Err(_) => true,
    }
}

/// What could be better about the category on the platform.
pub fn lint_app(presets: &PresetSnapshot, platform: RuntimePlatform, name: &str) -> (result: Result<
    Vec<PresetLintDiagnosticV1>,
    MetadataError,
>)
    requires
        app_is_available(*presets, platform, name@),
    ensures
        match app_categories_on(platform, true, presets@, Some(name@)) {
            Ok(categories) => result is Ok && finding_views(result->Ok_0@)
                == app_category_findings(categories[0], name@),
            Err(error) => result is Err && result->Err_0@ == error,
        },
{
    match find_app_categories(platform, true, presets, Some(name)) {
        Ok(categories) => {
            proof {
                assert(category_views(categories@).len() == categories@.len());
                assert(category_views(categories@)[0] == categories@[0]@);
            }
            Ok(lint_app_category(&categories[0], name))
        },
        Err(error) => Err(error),
    }
}

/// What could be better about a shell command.
pub open spec fn shell_file_findings(target: Seq<char>, file: ShellFile) -> Seq<FindingView> {
    only_if(
        file.description@.len() == 0,
        warning_of(
            "missing_resource_description"@,
            target,
            Some(file.command_name@),
            "Shell command has no human-facing description"@,
        ),
    ) + permission_findings(
        optional_permissions(file.permissions),
        target + "/"@ + file.command_name@,
        Some(file.command_name@),
    )
}

/// What could be better about shell commands.
pub open spec fn shell_files_findings(target: Seq<char>, files: Seq<ShellFile>) -> Seq<FindingView>
    decreases files.len(),
{
    if files.len() == 0 {
        Seq::empty()
    } else {
        shell_files_findings(target, files.drop_last()) + shell_file_findings(
            target,
            files.last(),
        )
    }
}

/// What could be better about a shell category.
pub open spec fn shell_findings(category: ShellCategory, name: Seq<char>) -> Seq<FindingView> {
    let target = target_text(PresetKind::Shell, name);
    category_findings(target, category.uses_metadata, optional_text(category.description))
        + shell_files_findings(target, category.files@)
}

/// What could be better about the shell category.
pub fn lint_shell(category: &ShellCategory, name: &str) -> (findings: Vec<PresetLintDiagnosticV1>)
    ensures
        finding_views(findings@) == shell_findings(*category, name@),
{
    let target = preset_target(PresetKind::Shell, name);
    let mut findings: Vec<PresetLintDiagnosticV1> = Vec::new();
    lint_category(
        target.as_str(),
        category.uses_metadata,
        &category.description,
        &mut findings,
    );
    let ghost before = finding_views(findings@);
    let ghost files = category.files@;
    let mut i: usize = 0;
    proof {
        assert(before =~= category_findings(
            target@,
            category.uses_metadata,
            optional_text(category.description),
        ));
        assert(files.take(0) =~= Seq::<ShellFile>::empty());
        assert(finding_views(findings@) =~= before + shell_files_findings(
            target@,
            files.take(0),
        ));
    }
    while i < category.files.len()
        invariant
            i <= category.files.len(),
            files == category.files@,
            finding_views(findings@) == before + shell_files_findings(
                target@,
                files.take(i as int),
            ),
        decreases category.files.len() - i,
    {
        let file = &category.files[i];
        proof {
            assert(files.take(i as int + 1).drop_last() =~= files.take(i as int));
            assert(files.take(i as int + 1).last() == *file);
        }
        let resource = Some(file.command_name.clone());
        warn_if(
            &mut findings,
            file.description.as_str().is_empty(),
            "missing_resource_description",
            target.as_str(),
            &resource,
            "Shell command has no human-facing description",
        );
        let mut command = joined(target.as_str(), "/");
        command.append(file.command_name.as_str());
        lint_permissions(&file.permissions, command.as_str(), &resource, &mut findings);
        proof {
            assert(finding_views(findings@) =~= before + shell_files_findings(
                target@,
                files.take(i as int + 1),
            ));
        }
        i += 1;
    }
    proof {
        assert(files.take(files.len() as int) =~= files);
    }
    findings
}

/// An item of a system preset, as far as it is linted.
#[derive(Clone, Debug)]
pub struct SysLintItem {
    pub id: String,
    pub description: String,
    pub permissions: Option<PermissionDeclarationV1>,
}

/// A system preset, as far as it is linted.
#[derive(Clone, Debug)]
pub struct SysLintPreset {
    pub description: String,
    pub items: Vec<SysLintItem>,
}

/// What could be better about an item of a system preset.
pub open spec fn sys_item_findings(item: SysLintItem) -> Seq<FindingView> {
    let target = target_text(PresetKind::Sys, item.id@);
    only_if(
        trimmed(item.description@).len() == 0,
        warning_of(
            "missing_resource_description"@,
            target,
            Some(item.id@),
            "Sys item has no human-facing description"@,
        ),
    ) + permission_findings(optional_permissions(item.permissions), target, Some(item.id@))
}

/// What could be better about items of a system preset.
pub open spec fn sys_items_findings(items: Seq<SysLintItem>) -> Seq<FindingView>
    decreases items.len(),
{
    if items.len() == 0 {
        Seq::empty()
    } else {
        sys_items_findings(items.drop_last()) + sys_item_findings(items.last())
    }
}

/// What could be better about a system preset.
pub open spec fn sys_findings(preset: SysLintPreset, name: Seq<char>) -> Seq<FindingView> {
    only_if(
        trimmed(preset.description@).len() == 0,
        warning_of(
            "missing_category_description"@,
            target_text(PresetKind::Sys, name),
            None,
            "category has no human-facing description"@,
        ),
    ) + sys_items_findings(preset.items@)
}

/// What could be better about the system preset.
pub fn lint_sys(preset: &SysLintPreset, name: &str) -> (findings: Vec<PresetLintDiagnosticV1>)
    ensures
        finding_views(findings@) == sys_findings(*preset, name@),
{
    let target = preset_target(PresetKind::Sys, name);
    let mut findings: Vec<PresetLintDiagnosticV1> = Vec::new();
    warn_if(
        &mut findings,
        is_blank(preset.description.as_str()),
        "missing_category_description",
        target.as_str(),
        &None,
        "category has no human-facing description",
    );
    let ghost before = finding_views(findings@);
    let ghost items = preset.items@;
    let mut i: usize = 0;
    proof {
        assert(items.take(0) =~= Seq::<SysLintItem>::empty());
        assert(finding_views(findings@) =~= before + sys_items_findings(items.take(0)));
    }
    while i < preset.items.len()
        invariant
            i <= preset.items.len(),
            items == preset.items@,
            finding_views(findings@) == before + sys_items_findings(items.take(i as int)),
        decreases preset.items.len() - i,
    {
        let item = &preset.items[i];
        proof {
            assert(items.take(i as int + 1).drop_last() =~= items.take(i as int));
            assert(items.take(i as int + 1).last() == *item);
        }
        let item_target = preset_target(PresetKind::Sys, item.id.as_str());
        let resource = Some(item.id.clone());
        warn_if(
            &mut findings,
            is_blank(item.description.as_str()),
            "missing_resource_description",
            item_target.as_str(),
            &resource,
            "Sys item has no human-facing description",
        );
        lint_permissions(&item.permissions, item_target.as_str(), &resource, &mut findings);
        proof {
            assert(finding_views(findings@) =~= before + sys_items_findings(
                items.take(i as int + 1),
            ));
        }
        i += 1;
    }
    proof {
        assert(items.take(items.len() as int) =~= items);
        assert(finding_views(findings@) =~= sys_findings(*preset, name@));
    }
    findings
}

} // verus!
