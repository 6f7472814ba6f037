//! What a lint of presets finds: everything that could be better, and nothing else.

use vstd::prelude::*;
use vstd::string::*;

use crate::app_types::{
    optional_permissions, AppCategoryView, AppFileView, DeclaredNetworkScopeV1, DestinationRootView,
    PermissionDeclarationView, PermissionPathBaseV1,
};
use crate::context::RuntimePlatform;
use crate::inspection::{ShellCategory, ShellFile};
use crate::lexical::{lowered, replaced, trimmed};
use crate::lint::{
    app_category_findings, category_findings, file_findings, files_findings, is_private_path,
    only_if, permission_findings, shell_file_findings, shell_files_findings, shell_findings,
    sys_findings, sys_item_findings, sys_items_findings, FindingView, PresetLintSeverity,
    SysLintItem, SysLintPreset,
};
use crate::lint_report::{
    app_findings, error_count, errors_in, lint_findings, reports, scope_findings, shell_findings_on,
    LintCategory, PresetLintReportV1,
};
use crate::presets::PresetSnapshot;
use crate::text::begins_with;
use crate::validation::{PresetDiagnostic, PresetDiagnosticSeverity, PresetKind};

verus! {

/// Whether findings warn of something about a resource of a target.
pub open spec fn warns(
    list: Seq<FindingView>,
    code: Seq<char>,
    target: Seq<char>,
    resource: Option<Seq<char>>,
) -> bool {
    exists|i: int|
        0 <= i < list.len() && (#[trigger] list[i]).severity == PresetLintSeverity::Warning
            && list[i].code == code && list[i].target == Some(target) && list[i].resource
            == resource
}

proof fn lemma_warns_both(
    left: Seq<FindingView>,
    right: Seq<FindingView>,
    code: Seq<char>,
    target: Seq<char>,
    resource: Option<Seq<char>>,
)
    ensures
        warns(left + right, code, target, resource) <==> warns(left, code, target, resource)
            || warns(right, code, target, resource),
{
    let all = left + right;
    if warns(all, code, target, resource) {
        let i = choose|i: int|
            0 <= i < all.len() && (#[trigger] all[i]).severity == PresetLintSeverity::Warning
                && all[i].code == code && all[i].target == Some(target) && all[i].resource
                == resource;
        if i < left.len() {
            assert(left[i] == all[i]);
        } else {
            assert(right[i - left.len()] == all[i]);
        }
    }
    if warns(left, code, target, resource) {
        let i = choose|i: int|
            0 <= i < left.len() && (#[trigger] left[i]).severity == PresetLintSeverity::Warning
                && left[i].code == code && left[i].target == Some(target) && left[i].resource
                == resource;
        assert(all[i] == left[i]);
    }
    if warns(right, code, target, resource) {
        let i = choose|i: int|
            0 <= i < right.len() && (#[trigger] right[i]).severity == PresetLintSeverity::Warning
                && right[i].code == code && right[i].target == Some(target) && right[i].resource
                == resource;
        assert(all[left.len() + i] == right[i]);
    }
}

proof fn lemma_warns_if(
    holds: bool,
    finding: FindingView,
    code: Seq<char>,
    target: Seq<char>,
    resource: Option<Seq<char>>,
)
    ensures
        warns(only_if(holds, finding), code, target, resource) <==> holds && finding.severity
            == PresetLintSeverity::Warning && finding.code == code && finding.target == Some(target)
            && finding.resource == resource,
{
    if holds {
        assert(only_if(holds, finding)[0] == finding);
    }
}

proof fn lemma_codes()
    ensures
        "legacy_metadata"@ != "missing_category_description"@,
        "legacy_metadata"@ != "broad_network_permission"@,
        "legacy_metadata"@ != "private_absolute_path"@,
        "legacy_metadata"@ != "missing_resource_description"@,
        "missing_category_description"@ != "broad_network_permission"@,
        "missing_category_description"@ != "private_absolute_path"@,
        "missing_category_description"@ != "missing_resource_description"@,
        "broad_network_permission"@ != "private_absolute_path"@,
        "broad_network_permission"@ != "missing_resource_description"@,
        "private_absolute_path"@ != "missing_resource_description"@,
{
    reveal_strlit("legacy_metadata");
    reveal_strlit("missing_category_description");
    reveal_strlit("broad_network_permission");
    reveal_strlit("private_absolute_path");
    reveal_strlit("missing_resource_description");
    assert("legacy_metadata"@[0] == 'l');
    assert("missing_category_description"@[0] == 'm');
    assert("broad_network_permission"@[0] == 'b');
    assert("private_absolute_path"@[0] == 'p');
    assert("missing_resource_description"@[0] == 'm');
    assert("missing_category_description"@[8] == 'c');
    assert("missing_resource_description"@[8] == 'r');
}

/// Whether a path is in the home directory of one machine, however its separators are
/// written.
pub open spec fn is_of_one_machine(path: Seq<char>) -> bool {
    ||| begins_with(replaced(path, '\\', '/'), "/Users/"@)
    ||| begins_with(replaced(path, '\\', '/'), "/home/"@)
    ||| begins_with(lowered(replaced(path, '\\', '/')), "c:/users/"@)
}

/// Whether the network is declared without a limit.
pub open spec fn opens_network(declared: Option<PermissionDeclarationView>) -> bool {
    &&& declared is Some
    &&& exists|i: int|
        0 <= i < declared->0.network.len() && (#[trigger] declared->0.network[i]).scope
            == DeclaredNetworkScopeV1::Any
}

/// Whether a path of one machine is declared.
pub open spec fn opens_machine_path(declared: Option<PermissionDeclarationView>) -> bool {
    &&& declared is Some
    &&& exists|i: int|
        0 <= i < declared->0.filesystem.len() && (#[trigger] declared->0.filesystem[i]).0
            == PermissionPathBaseV1::Absolute && is_of_one_machine(declared->0.filesystem[i].1)
}

/// Whether a description is missing.
pub open spec fn is_undescribed(description: Option<Seq<char>>) -> bool {
    description is None || description->0.len() == 0
}

proof fn lemma_permissions(
    declared: Option<PermissionDeclarationView>,
    own: Seq<char>,
    about: Option<Seq<char>>,
    code: Seq<char>,
    target: Seq<char>,
    resource: Option<Seq<char>>,
)
    ensures
        warns(permission_findings(declared, own, about), code, target, resource) <==> own == target
            && about == resource && {
            ||| code == "broad_network_permission"@ && opens_network(declared)
            ||| code == "private_absolute_path"@ && opens_machine_path(declared)
        },
{
    lemma_codes();
    if let Some(declaration) = declared {
        let first = only_if(
            crate::lint::is_network_broad(declaration.network),
            crate::lint::warning_of(
                "broad_network_permission"@,
                own,
                about,
                "network scope `any` should be narrowed to known hosts when possible"@,
            ),
        );
        let second = only_if(
            crate::lint::has_private_path(declaration.filesystem),
            crate::lint::warning_of(
                "private_absolute_path"@,
                own,
                about,
                "filesystem permission appears to contain a private machine home path"@,
            ),
        );
        lemma_warns_both(first, second, code, target, resource);
        lemma_warns_if(
            crate::lint::is_network_broad(declaration.network),
            crate::lint::warning_of(
                "broad_network_permission"@,
                own,
                about,
                "network scope `any` should be narrowed to known hosts when possible"@,
            ),
            code,
            target,
            resource,
        );
        lemma_warns_if(
            crate::lint::has_private_path(declaration.filesystem),
            crate::lint::warning_of(
                "private_absolute_path"@,
                own,
                about,
                "filesystem permission appears to contain a private machine home path"@,
            ),
            code,
            target,
            resource,
        );
        let filesystem = declaration.filesystem;
        assert(crate::lint::has_private_path(filesystem) <==> opens_machine_path(declared)) by {
            assert forall|i: int| 0 <= i < filesystem.len() implies is_private_path(
                (#[trigger] filesystem[i]).1,
            ) == is_of_one_machine(filesystem[i].1) by {}
        }
    }
}

/// Declared permissions are warned of where the network is open without a limit, and where
/// a path of one machine is declared, and nowhere else.
pub proof fn law_permissions_are_warned_of(
    declared: Option<PermissionDeclarationView>,
    target: Seq<char>,
    resource: Option<Seq<char>>,
    code: Seq<char>,
)
    ensures
        warns(permission_findings(declared, target, resource), code, target, resource) <==> {
            ||| code == "broad_network_permission"@ && opens_network(declared)
            ||| code == "private_absolute_path"@ && opens_machine_path(declared)
        },
{
    lemma_permissions(declared, target, resource, code, target, resource);
}

proof fn lemma_category(
    own: Seq<char>,
    uses_metadata: bool,
    description: Option<Seq<char>>,
    code: Seq<char>,
    target: Seq<char>,
    resource: Option<Seq<char>>,
)
    ensures
        warns(
            category_findings(own, uses_metadata, description),
            code,
            target,
            resource,
        ) <==> own == target && resource is None && {
            ||| code == "legacy_metadata"@ && !uses_metadata
            ||| code == "missing_category_description"@ && is_undescribed(description)
        },
{
    lemma_codes();
    let first = crate::lint::warning_of(
        "legacy_metadata"@,
        own,
        None,
        "explicit shine.toml metadata is recommended"@,
    );
    let second = crate::lint::warning_of(
        "missing_category_description"@,
        own,
        None,
        "category has no human-facing description"@,
    );
    let lacks = crate::lint::lacks_description(description);
    lemma_warns_both(
        only_if(!uses_metadata, first),
        only_if(lacks, second),
        code,
        target,
        resource,
    );
    lemma_warns_if(!uses_metadata, first, code, target, resource);
    lemma_warns_if(lacks, second, code, target, resource);
}

/// Whether a file goes to a path of one machine.
pub open spec fn goes_to_machine_path(file: AppFileView) -> bool {
    match file.destination_root {
        Some(DestinationRootView::Path { path }) => is_of_one_machine(path),
        _ => false,
    }
}

proof fn lemma_file(
    own: Seq<char>,
    file: AppFileView,
    code: Seq<char>,
    target: Seq<char>,
    resource: Option<Seq<char>>,
)
    ensures
        warns(file_findings(own, file), code, target, resource) <==> own == target && resource
            == Some(replaced(file.source_rel, '\\', '/')) && {
            ||| code == "missing_resource_description"@ && is_undescribed(file.description)
            ||| code == "private_absolute_path"@ && goes_to_machine_path(file)
        },
{
    lemma_codes();
    let about = Some(replaced(file.source_rel, '\\', '/'));
    let first = crate::lint::warning_of(
        "missing_resource_description"@,
        own,
        about,
        "App file has no human-facing description"@,
    );
    let second = crate::lint::warning_of(
        "private_absolute_path"@,
        own,
        about,
        "App file destination appears to contain a private machine home path"@,
    );
    let lacks = crate::lint::lacks_description(file.description);
    let private = crate::lint::goes_to_private_path(file.destination_root);
    lemma_warns_both(only_if(lacks, first), only_if(private, second), code, target, resource);
    lemma_warns_if(lacks, first, code, target, resource);
    lemma_warns_if(private, second, code, target, resource);
}

/// Whether a warning is about some file of a list.
pub open spec fn concerns_file(
    files: Seq<AppFileView>,
    code: Seq<char>,
    resource: Option<Seq<char>>,
) -> bool {
    exists|i: int|
        0 <= i < files.len() && resource == Some(
            replaced((#[trigger] files[i]).source_rel, '\\', '/'),
        ) && {
            ||| code == "missing_resource_description"@ && is_undescribed(files[i].description)
            ||| code == "private_absolute_path"@ && goes_to_machine_path(files[i])
        }
}

proof fn lemma_files(
    own: Seq<char>,
    files: Seq<AppFileView>,
    code: Seq<char>,
    target: Seq<char>,
    resource: Option<Seq<char>>,
)
    ensures
        warns(files_findings(own, files), code, target, resource) <==> own == target
            && concerns_file(files, code, resource),
    decreases files.len(),
{
    if files.len() > 0 {
        let head = files.drop_last();
        lemma_files(own, head, code, target, resource);
        lemma_file(own, files.last(), code, target, resource);
        lemma_warns_both(
            files_findings(own, head),
            file_findings(own, files.last()),
            code,
            target,
            resource,
        );
        assert(files[files.len() - 1] == files.last());
        assert(forall|i: int| 0 <= i < head.len() ==> head[i] == #[trigger] files[i]);
        if concerns_file(head, code, resource) {
            let i = choose|i: int|
                0 <= i < head.len() && resource == Some(
                    replaced((#[trigger] head[i]).source_rel, '\\', '/'),
                ) && {
                    ||| code == "missing_resource_description"@ && is_undescribed(
                        head[i].description,
                    )
                    ||| code == "private_absolute_path"@ && goes_to_machine_path(head[i])
                };
            assert(files[i] == head[i]);
        }
    }
}

/// What is found of an App category: that it has no metadata; that it, or a file of it, is
/// not described; that it, a file of it or a permission goes to a path of one machine; that
/// its network is open without a limit. Each is found exactly where it is so.
pub proof fn law_lint_of_an_app_category(
    category: AppCategoryView,
    name: Seq<char>,
    code: Seq<char>,
    target: Seq<char>,
    resource: Option<Seq<char>>,
)
    ensures
        warns(app_category_findings(category, name), code, target, resource) <==> target == "app"@
            + "/"@ + name && {
            ||| resource is None && code == "legacy_metadata"@ && !category.uses_metadata
            ||| resource is None && code == "missing_category_description"@ && is_undescribed(
                category.description,
            )
            ||| resource is None && code == "private_absolute_path"@ && (
            category.destination_root is Some && is_of_one_machine(category.destination_root->0)
                || opens_machine_path(category.permissions))
            ||| resource is None && code == "broad_network_permission"@ && opens_network(
                category.permissions,
            )
            ||| concerns_file(category.files, code, resource)
        },
{
    lemma_codes();
    let own = "app"@ + "/"@ + name;
    let first = category_findings(own, category.uses_metadata, category.description);
    let private = crate::lint::warning_of(
        "private_absolute_path"@,
        own,
        None,
        "category destination appears to contain a private machine home path"@,
    );
    let holds = crate::lint::root_is_private(category.destination_root);
    let second = only_if(holds, private);
    let third = files_findings(own, category.files);
    let fourth = permission_findings(category.permissions, own, None);
    lemma_category(
        own,
        category.uses_metadata,
        category.description,
        code,
        target,
        resource,
    );
    lemma_warns_if(holds, private, code, target, resource);
    lemma_files(own, category.files, code, target, resource);
    lemma_permissions(category.permissions, own, None, code, target, resource);
    lemma_warns_both(first, second, code, target, resource);
    lemma_warns_both(first + second, third, code, target, resource);
    lemma_warns_both(first + second + third, fourth, code, target, resource);
    assert(crate::validation::target_text(PresetKind::App, name) == own);
}

proof fn lemma_shell_file(
    own: Seq<char>,
    file: ShellFile,
    code: Seq<char>,
    target: Seq<char>,
    resource: Option<Seq<char>>,
)
    ensures
        warns(shell_file_findings(own, file), code, target, resource) <==> resource == Some(
            file.command_name@,
        ) && {
            ||| target == own && code == "missing_resource_description"@
                && file.description@.len() == 0
            ||| target == own + "/"@ + file.command_name@ && code == "broad_network_permission"@
                && opens_network(optional_permissions(file.permissions))
            ||| target == own + "/"@ + file.command_name@ && code == "private_absolute_path"@
                && opens_machine_path(optional_permissions(file.permissions))
        },
{
    lemma_codes();
    let first = crate::lint::warning_of(
        "missing_resource_description"@,
        own,
        Some(file.command_name@),
        "Shell command has no human-facing description"@,
    );
    let holds = file.description@.len() == 0;
    let deeper = own + "/"@ + file.command_name@;
    lemma_warns_if(holds, first, code, target, resource);
    lemma_permissions(
        optional_permissions(file.permissions),
        deeper,
        Some(file.command_name@),
        code,
        target,
        resource,
    );
    lemma_warns_both(
        only_if(holds, first),
        permission_findings(
            optional_permissions(file.permissions),
            deeper,
            Some(file.command_name@),
        ),
        code,
        target,
        resource,
    );
}

/// Whether a warning is about some command of a list.
pub open spec fn concerns_command(
    files: Seq<ShellFile>,
    own: Seq<char>,
    code: Seq<char>,
    target: Seq<char>,
    resource: Option<Seq<char>>,
) -> bool {
    exists|i: int|
        0 <= i < files.len() && resource == Some((#[trigger] files[i]).command_name@) && {
            ||| target == own && code == "missing_resource_description"@
                && files[i].description@.len() == 0
            ||| target == own + "/"@ + files[i].command_name@ && code
                == "broad_network_permission"@ && opens_network(
                optional_permissions(files[i].permissions),
            )
            ||| target == own + "/"@ + files[i].command_name@ && code == "private_absolute_path"@
                && opens_machine_path(optional_permissions(files[i].permissions))
        }
}

proof fn lemma_shell_files(
    own: Seq<char>,
    files: Seq<ShellFile>,
    code: Seq<char>,
    target: Seq<char>,
    resource: Option<Seq<char>>,
)
    ensures
        warns(shell_files_findings(own, files), code, target, resource) <==> concerns_command(
            files,
            own,
            code,
            target,
            resource,
        ),
    decreases files.len(),
{
    if files.len() > 0 {
        let head = files.drop_last();
        lemma_shell_files(own, head, code, target, resource);
        lemma_shell_file(own, files.last(), code, target, resource);
        lemma_warns_both(
            shell_files_findings(own, head),
            shell_file_findings(own, files.last()),
            code,
            target,
            resource,
        );
        let last = files.len() - 1;
        assert(files[last] == files.last());
        assert(forall|i: int| 0 <= i < head.len() ==> head[i] == #[trigger] files[i]);
        if concerns_command(head, own, code, target, resource) {
            let i = choose|i: int|
                0 <= i < head.len() && resource == Some((#[trigger] head[i]).command_name@) && {
                    ||| target == own && code == "missing_resource_description"@
                        && head[i].description@.len() == 0
                    ||| target == own + "/"@ + head[i].command_name@ && code
                        == "broad_network_permission"@ && opens_network(
                        optional_permissions(head[i].permissions),
                    )
                    ||| target == own + "/"@ + head[i].command_name@ && code
                        == "private_absolute_path"@ && opens_machine_path(
                        optional_permissions(head[i].permissions),
                    )
                };
            assert(files[i] == head[i]);
        }
        if concerns_command(files, own, code, target, resource) {
            let i = choose|i: int|
                0 <= i < files.len() && resource == Some((#[trigger] files[i]).command_name@) && {
                    ||| target == own && code == "missing_resource_description"@
                        && files[i].description@.len() == 0
                    ||| target == own + "/"@ + files[i].command_name@ && code
                        == "broad_network_permission"@ && opens_network(
                        optional_permissions(files[i].permissions),
                    )
                    ||| target == own + "/"@ + files[i].command_name@ && code
                        == "private_absolute_path"@ && opens_machine_path(
                        optional_permissions(files[i].permissions),
                    )
                };
            if i < last {
                assert(head[i] == files[i]);
            }
        }
    }
}

/// What is found of a shell category: that it has no metadata; that it, or a command of
/// it, is not described; that the permissions of a command are open. Each is found exactly
/// where it is so.
pub proof fn law_lint_of_a_shell_category(
    category: ShellCategory,
    name: Seq<char>,
    code: Seq<char>,
    target: Seq<char>,
    resource: Option<Seq<char>>,
)
    ensures
        warns(shell_findings(category, name), code, target, resource) <==> {
            let own = "shell"@ + "/"@ + name;
            ||| target == own && resource is None && code == "legacy_metadata"@
                && !category.uses_metadata
            ||| target == own && resource is None && code == "missing_category_description"@
                && is_undescribed(crate::plan::optional_text(category.description))
            ||| concerns_command(category.files@, own, code, target, resource)
        },
{
    let own = "shell"@ + "/"@ + name;
    let description = crate::plan::optional_text(category.description);
    lemma_category(own, category.uses_metadata, description, code, target, resource);
    lemma_shell_files(own, category.files@, code, target, resource);
    lemma_warns_both(
        category_findings(own, category.uses_metadata, description),
        shell_files_findings(own, category.files@),
        code,
        target,
        resource,
    );
    assert(crate::validation::target_text(PresetKind::Shell, name) == own);
}

/// Whether a warning is about an item of a system preset.
pub open spec fn concerns_item(
    item: SysLintItem,
    code: Seq<char>,
    target: Seq<char>,
    resource: Option<Seq<char>>,
) -> bool {
    target == "sys"@ + "/"@ + item.id@ && resource == Some(item.id@) && {
        ||| code == "missing_resource_description"@ && trimmed(item.description@).len() == 0
        ||| code == "broad_network_permission"@ && opens_network(
            optional_permissions(item.permissions),
        )
        ||| code == "private_absolute_path"@ && opens_machine_path(
            optional_permissions(item.permissions),
        )
    }
}

proof fn lemma_items(
    items: Seq<SysLintItem>,
    code: Seq<char>,
    target: Seq<char>,
    resource: Option<Seq<char>>,
)
    ensures
        warns(sys_items_findings(items), code, target, resource) <==> exists|i: int|
            0 <= i < items.len() && concerns_item(#[trigger] items[i], code, target, resource),
    decreases items.len(),
{
    if items.len() > 0 {
        let head = items.drop_last();
        let item = items.last();
        lemma_items(head, code, target, resource);
        lemma_codes();
        let own = "sys"@ + "/"@ + item.id@;
        assert(crate::validation::target_text(PresetKind::Sys, item.id@) == own);
        let first = crate::lint::warning_of(
            "missing_resource_description"@,
            own,
            Some(item.id@),
            "Sys item has no human-facing description"@,
        );
        let holds = trimmed(item.description@).len() == 0;
        lemma_warns_if(holds, first, code, target, resource);
        lemma_permissions(
            optional_permissions(item.permissions),
            own,
            Some(item.id@),
            code,
            target,
            resource,
        );
        lemma_warns_both(
            only_if(holds, first),
            permission_findings(optional_permissions(item.permissions), own, Some(item.id@)),
            code,
            target,
            resource,
        );
        assert(warns(sys_item_findings(item), code, target, resource) <==> concerns_item(
            item,
            code,
            target,
            resource,
        ));
        lemma_warns_both(
            sys_items_findings(head),
            sys_item_findings(item),
            code,
            target,
            resource,
        );
        assert(items[items.len() - 1] == item);
        assert(forall|i: int| 0 <= i < head.len() ==> head[i] == #[trigger] items[i]);
        if exists|i: int|
            0 <= i < head.len() && concerns_item(#[trigger] head[i], code, target, resource) {
            let i = choose|i: int|
                0 <= i < head.len() && concerns_item(#[trigger] head[i], code, target, resource);
            assert(items[i] == head[i]);
        }
    }
}

/// What is found of a system preset: that it, or an item of it, is not described, and that
/// the permissions of an item are open. Each is found exactly where it is so.
pub proof fn law_lint_of_a_system_preset(
    preset: SysLintPreset,
    name: Seq<char>,
    code: Seq<char>,
    target: Seq<char>,
    resource: Option<Seq<char>>,
)
    ensures
        warns(sys_findings(preset, name), code, target, resource) <==> {
            ||| target == "sys"@ + "/"@ + name && resource is None && code
                == "missing_category_description"@ && trimmed(preset.description@).len() == 0
            ||| exists|i: int|
                0 <= i < preset.items@.len() && concerns_item(
                    #[trigger] preset.items@[i],
                    code,
                    target,
                    resource,
                )
        },
{
    let own = "sys"@ + "/"@ + name;
    assert(crate::validation::target_text(PresetKind::Sys, name) == own);
    let first = crate::lint::warning_of(
        "missing_category_description"@,
        own,
        None,
        "category has no human-facing description"@,
    );
    let holds = trimmed(preset.description@).len() == 0;
    lemma_warns_if(holds, first, code, target, resource);
    lemma_items(preset.items@, code, target, resource);
    lemma_warns_both(
        only_if(holds, first),
        sys_items_findings(preset.items@),
        code,
        target,
        resource,
    );
}

proof fn lemma_holds_both(left: Seq<FindingView>, right: Seq<FindingView>, finding: FindingView)
    ensures
        (left + right).contains(finding) <==> left.contains(finding) || right.contains(finding),
{
    let all = left + right;
    if all.contains(finding) {
        let i = choose|i: int| 0 <= i < all.len() && all[i] == finding;
        if i < left.len() {
            assert(left[i] == finding);
        } else {
            assert(right[i - left.len()] == finding);
        }
    }
    if left.contains(finding) {
        let i = choose|i: int| 0 <= i < left.len() && left[i] == finding;
        assert(all[i] == finding);
    }
    if right.contains(finding) {
        let i = choose|i: int| 0 <= i < right.len() && right[i] == finding;
        assert(all[left.len() + i] == finding);
    }
}

/// A lint is about every category of its scope, and an App category is looked at on each
/// platform: what is found of one of them is found, and nothing else is.
pub proof fn law_lint_misses_no_category(
    presets: PresetSnapshot,
    categories: Seq<LintCategory>,
    finding: FindingView,
)
    ensures
        scope_findings(presets, categories).contains(finding) <==> exists|i: int|
            0 <= i < categories.len() && match #[trigger] categories[i] {
                LintCategory::App { name } => {
                    ||| app_findings(presets, RuntimePlatform::Linux, name@).contains(finding)
                    ||| app_findings(presets, RuntimePlatform::Macos, name@).contains(finding)
                    ||| app_findings(presets, RuntimePlatform::Windows, name@).contains(finding)
                },
                LintCategory::Shell { name, on_platforms } => shell_findings_on(
                    name@,
                    on_platforms@,
                ).contains(finding),
                LintCategory::Sys { name, preset } => match preset {
                    Some(preset) => sys_findings(preset, name@).contains(finding),
                    None => finding.severity == PresetLintSeverity::Error && lint_findings(
                        presets,
                        categories[i],
                    ).contains(finding),
                },
            },
    decreases categories.len(),
{
    if categories.len() > 0 {
        let head = categories.drop_last();
        let last = categories.len() - 1;
        law_lint_misses_no_category(presets, head, finding);
        assert(categories[last] == categories.last());
        assert(forall|i: int| 0 <= i < head.len() ==> head[i] == #[trigger] categories[i]);
        lemma_holds_both(
            scope_findings(presets, head),
            lint_findings(presets, categories.last()),
            finding,
        );
        if let LintCategory::App { name } = categories.last() {
            let linux = app_findings(presets, RuntimePlatform::Linux, name@);
            let macos = app_findings(presets, RuntimePlatform::Macos, name@);
            let windows = app_findings(presets, RuntimePlatform::Windows, name@);
            lemma_holds_both(linux, macos, finding);
            lemma_holds_both(linux + macos, windows, finding);
        }
        if scope_findings(presets, head).contains(finding) {
            let i = choose|i: int|
                0 <= i < head.len() && match #[trigger] head[i] {
                    LintCategory::App { name } => {
                        ||| app_findings(presets, RuntimePlatform::Linux, name@).contains(finding)
                        ||| app_findings(presets, RuntimePlatform::Macos, name@).contains(finding)
                        ||| app_findings(presets, RuntimePlatform::Windows, name@).contains(
                            finding,
                        )
                    },
                    LintCategory::Shell { name, on_platforms } => shell_findings_on(
                        name@,
                        on_platforms@,
                    ).contains(finding),
                    LintCategory::Sys { name, preset } => match preset {
                        Some(preset) => sys_findings(preset, name@).contains(finding),
                        None => finding.severity == PresetLintSeverity::Error && lint_findings(
                            presets,
                            head[i],
                        ).contains(finding),
                    },
                };
            assert(categories[i] == head[i]);
        }
        if lint_findings(presets, categories.last()).contains(finding) {
            assert(categories[last] == categories.last());
        }
    }
}

proof fn lemma_errors(list: Seq<FindingView>)
    ensures
        error_count(list) <= list.len(),
        error_count(list) > 0 <==> exists|i: int|
            0 <= i < list.len() && (#[trigger] list[i]).severity == PresetLintSeverity::Error,
    decreases list.len(),
{
    if list.len() > 0 {
        let head = list.drop_last();
        lemma_errors(head);
        assert(list[list.len() - 1] == list.last());
        assert(forall|i: int| 0 <= i < head.len() ==> head[i] == #[trigger] list[i]);
        if error_count(head) > 0 {
            let i = choose|i: int|
                0 <= i < head.len() && (#[trigger] head[i]).severity == PresetLintSeverity::Error;
            assert(list[i] == head[i]);
        }
    }
}

/// A report is valid exactly where nothing that was found is an error, and clean exactly
/// where nothing was found; its counts add up to what it lists.
pub proof fn law_reports_say_what_was_found(
    report: PresetLintReportV1,
    categories: usize,
    found: Seq<FindingView>,
)
    requires
        reports(report, categories, found),
    ensures
        report.valid <==> forall|i: int|
            0 <= i < found.len() ==> (#[trigger] found[i]).severity != PresetLintSeverity::Error,
        report.clean <==> found.len() == 0,
        report.summary.errors + report.summary.warnings == report.diagnostics@.len(),
        report.summary.categories == categories,
        forall|i: int|
            0 <= i < found.len() ==> exists|j: int|
                0 <= j < report.diagnostics@.len() && (#[trigger] report.diagnostics@[j])@
                    == #[trigger] found[i],
{
    let list = crate::lint::finding_views(report.diagnostics@);
    lemma_errors(list);
    assert forall|i: int| 0 <= i < found.len() implies exists|j: int|
        0 <= j < report.diagnostics@.len() && (#[trigger] report.diagnostics@[j])@
            == #[trigger] found[i] by {
        assert(found.contains(found[i]));
        assert(found.to_set().contains(found[i]));
        assert(list.to_set().contains(found[i]));
        let j = choose|j: int| 0 <= j < list.len() && list[j] == found[i];
        assert(report.diagnostics@[j]@ == list[j]);
    }
    assert forall|j: int| 0 <= j < list.len() implies found.contains(#[trigger] list[j]) by {
        assert(list.to_set().contains(list[j]));
        assert(found.to_set().contains(list[j]));
    }
    if report.valid {
        assert forall|i: int| 0 <= i < found.len() implies (#[trigger] found[i]).severity
            != PresetLintSeverity::Error by {
            let j = choose|j: int|
                0 <= j < report.diagnostics@.len() && (#[trigger] report.diagnostics@[j])@
                    == found[i];
            assert(list[j] == found[i]);
        }
    } else {
        let j = choose|j: int|
            0 <= j < list.len() && (#[trigger] list[j]).severity == PresetLintSeverity::Error;
        let i = choose|i: int| 0 <= i < found.len() && found[i] == list[j];
        assert(found[i].severity == PresetLintSeverity::Error);
    }
    if list.len() == 0 && found.len() > 0 {
        assert(found[0] == found[0]);
        let j = choose|j: int|
            0 <= j < report.diagnostics@.len() && (#[trigger] report.diagnostics@[j])@ == found[0];
        assert(list.len() == report.diagnostics@.len());
    }
    if found.len() == 0 && list.len() > 0 {
        assert(found.contains(list[0]));
    }
}

/// Every error of a validation is an error of the lint, and nothing else of a validation
/// is.
pub proof fn law_errors_of_validation_are_found(
    list: Seq<PresetDiagnostic>,
    target: Option<Seq<char>>,
    code: Seq<char>,
)
    ensures
        (exists|i: int|
            0 <= i < errors_in(list, target).len() && (#[trigger] errors_in(list, target)[i]).code
                == code) <==> exists|i: int|
            0 <= i < list.len() && (#[trigger] list[i]).severity == PresetDiagnosticSeverity::Error
                && list[i].code@ == code,
        forall|i: int|
            0 <= i < errors_in(list, target).len() ==> (#[trigger] errors_in(
                list,
                target,
            )[i]).severity == PresetLintSeverity::Error && errors_in(list, target)[i].target
                == target,
    decreases list.len(),
{
    if list.len() > 0 {
        let head = list.drop_last();
        law_errors_of_validation_are_found(head, target, code);
        let before = errors_in(head, target);
        let all = errors_in(list, target);
        assert(list[list.len() - 1] == list.last());
        assert(forall|i: int| 0 <= i < head.len() ==> head[i] == #[trigger] list[i]);
        assert(forall|i: int| 0 <= i < before.len() ==> before[i] == #[trigger] all[i]);
        if exists|i: int| 0 <= i < before.len() && (#[trigger] before[i]).code == code {
            let i = choose|i: int| 0 <= i < before.len() && (#[trigger] before[i]).code == code;
            assert(all[i].code == code);
            let k = choose|k: int|
                0 <= k < head.len() && (#[trigger] head[k]).severity
                    == PresetDiagnosticSeverity::Error && head[k].code@ == code;
            assert(list[k] == head[k]);
        }
        if list.last().severity == PresetDiagnosticSeverity::Error {
            assert(all.last() == all[before.len() as int]);
        }
        if exists|i: int| 0 <= i < all.len() && (#[trigger] all[i]).code == code {
            let i = choose|i: int| 0 <= i < all.len() && (#[trigger] all[i]).code == code;
            if i < before.len() {
                assert(before[i].code == code);
            }
        }
        if exists|i: int|
            0 <= i < list.len() && (#[trigger] list[i]).severity
                == PresetDiagnosticSeverity::Error && list[i].code@ == code {
            let i = choose|i: int|
                0 <= i < list.len() && (#[trigger] list[i]).severity
                    == PresetDiagnosticSeverity::Error && list[i].code@ == code;
            if i < head.len() {
                assert(head[i] == list[i]);
            } else {
                assert(all[before.len() as int].code == code);
            }
        }
    }
}

} // verus!
