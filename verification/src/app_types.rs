//! Apps: their categories, their files, and what is asked and reported of them.

use vstd::prelude::*;
use vstd::string::*;

use crate::lifecycle::{LifecycleOperation, LifecycleOutcomeV1, LifecycleResultV1, LifecycleStatus};
use crate::manifest::{strategy_keys, AppInstallStrategy};
use crate::plan::optional_text;
use crate::text::{copy_texts, texts};

verus! {

/// An environment variable that code may see: where its value comes from and the
/// name under which it is seen.
#[derive(Clone, Debug)]
pub struct EnvVarSpec {
    pub source: String,
    pub target: String,
}

impl View for EnvVarSpec {
    type V = (Seq<char>, Seq<char>);

    open spec fn view(&self) -> (Seq<char>, Seq<char>) {
        (self.source@, self.target@)
    }
}

/// The views of a list of variables.
pub open spec fn env_spec_views(list: Seq<EnvVarSpec>) -> Seq<(Seq<char>, Seq<char>)> {
    list.map_values(|spec: EnvVarSpec| spec@)
}

#[derive(Clone, Copy, Debug, PartialEq, Eq, Structural)]
pub enum DeclaredNetworkScopeV1 {
    Any,
    Hosts,
}

#[derive(Clone, Copy, Debug, PartialEq, Eq, Structural)]
pub enum PermissionPathBaseV1 {
    Home,
    ShineDir,
    DataDir,
    Absolute,
}

#[derive(Clone, Copy, Debug, PartialEq, Eq, Structural)]
pub struct NetworkDeclarationV1 {
    pub scope: DeclaredNetworkScopeV1,
}

#[derive(Clone, Debug)]
pub struct FilesystemDeclarationV1 {
    pub base: PermissionPathBaseV1,
    pub path: String,
}

/// The permissions that a preset declares for its code.
#[derive(Clone, Debug)]
pub struct PermissionDeclarationV1 {
    pub schema_version: u32,
    pub network: Vec<NetworkDeclarationV1>,
    pub filesystem: Vec<FilesystemDeclarationV1>,
}

/// A declaration by the values it holds.
pub ghost struct PermissionDeclarationView {
    pub schema_version: u32,
    pub network: Seq<NetworkDeclarationV1>,
    pub filesystem: Seq<(PermissionPathBaseV1, Seq<char>)>,
}

/// The values of a list of filesystem declarations.
pub open spec fn filesystem_views(list: Seq<FilesystemDeclarationV1>) -> Seq<
    (PermissionPathBaseV1, Seq<char>),
> {
    list.map_values(|item: FilesystemDeclarationV1| (item.base, item.path@))
}

impl View for PermissionDeclarationV1 {
    type V = PermissionDeclarationView;

    open spec fn view(&self) -> PermissionDeclarationView {
        PermissionDeclarationView {
            schema_version: self.schema_version,
            network: self.network@,
            filesystem: filesystem_views(self.filesystem@),
        }
    }
}

/// A declaration that may be absent, by its values.
pub open spec fn optional_permissions(declaration: Option<PermissionDeclarationV1>) -> Option<
    PermissionDeclarationView,
> {
    match declaration {
        Some(declaration) => Some(declaration@),
        None => None,
    }
}

impl PermissionDeclarationV1 {
    /// A copy of the declaration.
    pub fn copied(&self) -> (copy: PermissionDeclarationV1)
        ensures
            copy@ == self@,
    {
        let mut network: Vec<NetworkDeclarationV1> = Vec::new();
        let mut i: usize = 0;
        while i < self.network.len()
            invariant
                i <= self.network.len(),
                network@ == self.network@.take(i as int),
            decreases self.network.len() - i,
        {
            network.push(self.network[i]);
            proof {
                assert(self.network@.take(i as int + 1) =~= self.network@.take(i as int).push(
                    self.network@[i as int],
                ));
            }
            i += 1;
        }
        let mut filesystem: Vec<FilesystemDeclarationV1> = Vec::new();
        let mut k: usize = 0;
        let ghost all = filesystem_views(self.filesystem@);
        proof {
            assert(filesystem_views(filesystem@) =~= all.take(0));
        }
        while k < self.filesystem.len()
            invariant
                k <= self.filesystem.len(),
                all == filesystem_views(self.filesystem@),
                filesystem_views(filesystem@) == all.take(k as int),
            decreases self.filesystem.len() - k,
        {
            let ghost before = filesystem@;
            filesystem.push(
                FilesystemDeclarationV1 {
                    base: self.filesystem[k].base,
                    path: self.filesystem[k].path.clone(),
                },
            );
            proof {
                assert(all.take(k as int + 1) =~= all.take(k as int).push(all[k as int]));
                assert(filesystem_views(filesystem@) =~= filesystem_views(before).push(
                    all[k as int],
                ));
            }
            k += 1;
        }
        proof {
            assert(self.network@.take(self.network@.len() as int) =~= self.network@);
            assert(all.take(all.len() as int) =~= all);
        }
        PermissionDeclarationV1 { schema_version: self.schema_version, network, filesystem }
    }
}

#[derive(Clone, Copy, Debug, PartialEq, Eq, Structural)]
pub enum AppListMode {
    Category,
    Files,
}

#[derive(Clone, Copy, Debug, PartialEq, Eq, Structural)]
pub enum ArtifactRuntime {
    Native,
    Bun,
}

/// A copy of a text that may be absent.
pub fn copy_optional(text: &Option<String>) -> (copy: Option<String>)
    ensures
        copy == *text,
{
    match text {
        Some(text) => Some(text.clone()),
        None => None,
    }
}

/// A copy of a list of variables.
pub fn copy_env_specs(list: &Vec<EnvVarSpec>) -> (copy: Vec<EnvVarSpec>)
    ensures
        env_spec_views(copy@) == env_spec_views(list@),
{
    let mut copy: Vec<EnvVarSpec> = Vec::new();
    let mut i: usize = 0;
    proof {
        assert(env_spec_views(copy@) =~= env_spec_views(list@).take(0));
    }
    while i < list.len()
        invariant
            i <= list.len(),
            env_spec_views(copy@) == env_spec_views(list@).take(i as int),
        decreases list.len() - i,
    {
        let ghost before = copy@;
        copy.push(EnvVarSpec { source: list[i].source.clone(), target: list[i].target.clone() });
        proof {
            let all = env_spec_views(list@);
            assert(all.take(i as int + 1) =~= all.take(i as int).push(all[i as int]));
            assert(env_spec_views(copy@) =~= env_spec_views(before).push(list@[i as int]@));
        }
        i += 1;
    }
    proof {
        assert(env_spec_views(list@).take(list@.len() as int) =~= env_spec_views(list@));
    }
    copy
}

/// A command that runs after an install or an upgrade.
#[derive(Clone, Debug)]
pub struct AppHook {
    pub command: String,
    pub args: Vec<String>,
    pub show_output: bool,
    pub env: Vec<EnvVarSpec>,
}

/// The values of an `AppHook`.
pub ghost struct AppHookView {
    pub command: Seq<char>,
    pub args: Seq<Seq<char>>,
    pub show_output: bool,
    pub env: Seq<(Seq<char>, Seq<char>)>,
}

impl View for AppHook {
    type V = AppHookView;

    open spec fn view(&self) -> AppHookView {
        AppHookView {
            command: self.command@,
            args: texts(self.args@),
            show_output: self.show_output,
            env: env_spec_views(self.env@),
        }
    }
}

impl AppHook {
    /// A copy of the value.
    pub fn copied(&self) -> (copy: AppHook)
        ensures
            copy@ == self@,
    {
        AppHook {
            command: self.command.clone(),
            args: copy_texts(self.args.as_slice()),
            show_output: self.show_output,
            env: copy_env_specs(&self.env),
        }
    }
}

/// Code that builds an artifact of an App, and code that takes it down.
#[derive(Clone, Debug)]
pub struct AppArtifact {
    pub script: String,
    pub teardown: Option<String>,
    pub runtime: ArtifactRuntime,
    pub env: Vec<EnvVarSpec>,
}

/// The values of an `AppArtifact`.
pub ghost struct AppArtifactView {
    pub script: Seq<char>,
    pub teardown: Option<Seq<char>>,
    pub runtime: ArtifactRuntime,
    pub env: Seq<(Seq<char>, Seq<char>)>,
}

impl View for AppArtifact {
    type V = AppArtifactView;

    open spec fn view(&self) -> AppArtifactView {
        AppArtifactView {
            script: self.script@,
            teardown: optional_text(self.teardown),
            runtime: self.runtime,
            env: env_spec_views(self.env@),
        }
    }
}

impl AppArtifact {
    /// A copy of the value.
    pub fn copied(&self) -> (copy: AppArtifact)
        ensures
            copy@ == self@,
    {
        AppArtifact {
            script: self.script.clone(),
            teardown: copy_optional(&self.teardown),
            runtime: self.runtime,
            env: copy_env_specs(&self.env),
        }
    }
}

/// Code that generates the content of an App file.
#[derive(Clone, Debug)]
pub struct AppGenerator {
    pub script: String,
    pub runtime: ArtifactRuntime,
    pub env: Vec<EnvVarSpec>,
    pub when_env: String,
    pub auto: bool,
}

/// The values of an `AppGenerator`.
pub ghost struct AppGeneratorView {
    pub script: Seq<char>,
    pub runtime: ArtifactRuntime,
    pub env: Seq<(Seq<char>, Seq<char>)>,
    pub when_env: Seq<char>,
    pub auto: bool,
}

impl View for AppGenerator {
    type V = AppGeneratorView;

    open spec fn view(&self) -> AppGeneratorView {
        AppGeneratorView {
            script: self.script@,
            runtime: self.runtime,
            env: env_spec_views(self.env@),
            when_env: self.when_env@,
            auto: self.auto,
        }
    }
}

impl AppGenerator {
    /// A copy of the value.
    pub fn copied(&self) -> (copy: AppGenerator)
        ensures
            copy@ == self@,
    {
        AppGenerator {
            script: self.script.clone(),
            runtime: self.runtime,
            env: copy_env_specs(&self.env),
            when_env: self.when_env.clone(),
            auto: self.auto,
        }
    }
}

/// Where the files of an App go.
#[derive(Clone, Debug)]
pub enum AppDestinationRoot {
    Path(String),
    DataDir(String),
}

/// A destination root by the characters it holds.
pub ghost enum DestinationRootView {
    Path { path: Seq<char> },
    DataDir { path: Seq<char> },
}

impl View for AppDestinationRoot {
    type V = DestinationRootView;

    open spec fn view(&self) -> DestinationRootView {
        match *self {
            AppDestinationRoot::Path(path) => DestinationRootView::Path { path: path@ },
            AppDestinationRoot::DataDir(path) => DestinationRootView::DataDir { path: path@ },
        }
    }
}

/// A destination root that may be absent, by its characters.
pub open spec fn optional_root(root: Option<AppDestinationRoot>) -> Option<DestinationRootView> {
    match root {
        Some(root) => Some(root@),
        None => None,
    }
}

/// A generator that may be absent, by its values.
pub open spec fn optional_generator(generator: Option<AppGenerator>) -> Option<AppGeneratorView> {
    match generator {
        Some(generator) => Some(generator@),
        None => None,
    }
}

/// An artifact that may be absent, by its values.
pub open spec fn optional_artifact(artifact: Option<AppArtifact>) -> Option<AppArtifactView> {
    match artifact {
        Some(artifact) => Some(artifact@),
        None => None,
    }
}

fn copy_root(root: &Option<AppDestinationRoot>) -> (copy: Option<AppDestinationRoot>)
    ensures
        optional_root(copy) == optional_root(*root),
{
    match root {
        Some(AppDestinationRoot::Path(path)) => Some(AppDestinationRoot::Path(path.clone())),
        Some(AppDestinationRoot::DataDir(path)) => Some(AppDestinationRoot::DataDir(path.clone())),
        None => None,
    }
}

fn copy_generator(generator: &Option<AppGenerator>) -> (copy: Option<AppGenerator>)
    ensures
        optional_generator(copy) == optional_generator(*generator),
{
    match generator {
        Some(generator) => Some(generator.copied()),
        None => None,
    }
}

/// One file of an App.
#[derive(Clone, Debug)]
pub struct AppFile {
    pub source_rel: String,
    pub target_rel: String,
    pub destination_root: Option<AppDestinationRoot>,
    pub description: Option<String>,
    pub display_name: Option<String>,
    pub legacy_dest_annotation: Option<String>,
    pub transforms: Vec<String>,
    pub install_strategy: AppInstallStrategy,
    pub requires_admin: bool,
    pub restart_hint: Option<String>,
    pub generator: Option<AppGenerator>,
}

/// The values of an `AppFile`.
pub ghost struct AppFileView {
    pub source_rel: Seq<char>,
    pub target_rel: Seq<char>,
    pub destination_root: Option<DestinationRootView>,
    pub description: Option<Seq<char>>,
    pub display_name: Option<Seq<char>>,
    pub legacy_dest_annotation: Option<Seq<char>>,
    pub transforms: Seq<Seq<char>>,
    pub install_strategy: Option<Seq<Seq<char>>>,
    pub requires_admin: bool,
    pub restart_hint: Option<Seq<char>>,
    pub generator: Option<AppGeneratorView>,
}

impl View for AppFile {
    type V = AppFileView;

    open spec fn view(&self) -> AppFileView {
        AppFileView {
            source_rel: self.source_rel@,
            target_rel: self.target_rel@,
            destination_root: optional_root(self.destination_root),
            description: optional_text(self.description),
            display_name: optional_text(self.display_name),
            legacy_dest_annotation: optional_text(self.legacy_dest_annotation),
            transforms: texts(self.transforms@),
            install_strategy: strategy_keys(self.install_strategy),
            requires_admin: self.requires_admin,
            restart_hint: optional_text(self.restart_hint),
            generator: optional_generator(self.generator),
        }
    }
}

impl AppFile {
    /// A copy of the value.
    pub fn copied(&self) -> (copy: AppFile)
        ensures
            copy@ == self@,
    {
        AppFile {
            source_rel: self.source_rel.clone(),
            target_rel: self.target_rel.clone(),
            destination_root: copy_root(&self.destination_root),
            description: copy_optional(&self.description),
            display_name: copy_optional(&self.display_name),
            legacy_dest_annotation: copy_optional(&self.legacy_dest_annotation),
            transforms: copy_texts(self.transforms.as_slice()),
            install_strategy: self.install_strategy.copied(),
            requires_admin: self.requires_admin,
            restart_hint: copy_optional(&self.restart_hint),
            generator: copy_generator(&self.generator),
        }
    }
}

/// The views of a list of files.
pub open spec fn app_file_views(files: Seq<AppFile>) -> Seq<AppFileView> {
    files.map_values(|file: AppFile| file@)
}

/// The views of a list of hooks.
pub open spec fn hook_views(hooks: Seq<AppHook>) -> Seq<AppHookView> {
    hooks.map_values(|hook: AppHook| hook@)
}

/// The files of one App and how they are treated.
#[derive(Clone, Debug)]
pub struct AppCategory {
    pub name: String,
    pub description: Option<String>,
    pub destination_root: Option<String>,
    pub files: Vec<AppFile>,
    pub list_mode: AppListMode,
    pub post_upgrade: Vec<AppHook>,
    pub post_install: Vec<AppHook>,
    pub uses_metadata: bool,
    pub has_explicit_files: bool,
    pub artifact: Option<AppArtifact>,
    pub permissions: Option<PermissionDeclarationV1>,
}

/// The values of an `AppCategory`.
pub ghost struct AppCategoryView {
    pub name: Seq<char>,
    pub description: Option<Seq<char>>,
    pub destination_root: Option<Seq<char>>,
    pub files: Seq<AppFileView>,
    pub list_mode: AppListMode,
    pub post_upgrade: Seq<AppHookView>,
    pub post_install: Seq<AppHookView>,
    pub uses_metadata: bool,
    pub has_explicit_files: bool,
    pub artifact: Option<AppArtifactView>,
    pub permissions: Option<PermissionDeclarationView>,
}

impl View for AppCategory {
    type V = AppCategoryView;

    open spec fn view(&self) -> AppCategoryView {
        AppCategoryView {
            name: self.name@,
            description: optional_text(self.description),
            destination_root: optional_text(self.destination_root),
            files: app_file_views(self.files@),
            list_mode: self.list_mode,
            post_upgrade: hook_views(self.post_upgrade@),
            post_install: hook_views(self.post_install@),
            uses_metadata: self.uses_metadata,
            has_explicit_files: self.has_explicit_files,
            artifact: optional_artifact(self.artifact),
            permissions: optional_permissions(self.permissions),
        }
    }
}

/// The views of a list of categories.
pub open spec fn category_views(categories: Seq<AppCategory>) -> Seq<AppCategoryView> {
    categories.map_values(|category: AppCategory| category@)
}

/// A copy of a list of files.
pub fn copy_app_files(list: &Vec<AppFile>) -> (copy: Vec<AppFile>)
    ensures
        app_file_views(copy@) == app_file_views(list@),
{
    let mut copy: Vec<AppFile> = Vec::new();
    let ghost all = app_file_views(list@);
    let mut i: usize = 0;
    proof {
        assert(app_file_views(copy@) =~= all.take(0));
    }
    while i < list.len()
        invariant
            i <= list.len(),
            all == app_file_views(list@),
            app_file_views(copy@) == all.take(i as int),
        decreases list.len() - i,
    {
        let ghost before = copy@;
        let item = list[i].copied();
        let ghost added = item@;
        copy.push(item);
        proof {
            assert(app_file_views(copy@) =~= app_file_views(before).push(added));
            assert(all[i as int] == added);
            assert(app_file_views(copy@) =~= all.take(i as int + 1));
        }
        i += 1;
    }
    proof {
        assert(all.take(all.len() as int) =~= all);
    }
    copy
}

/// A copy of a list of hooks.
pub fn copy_hooks(list: &Vec<AppHook>) -> (copy: Vec<AppHook>)
    ensures
        hook_views(copy@) == hook_views(list@),
{
    let mut copy: Vec<AppHook> = Vec::new();
    let ghost all = hook_views(list@);
    let mut i: usize = 0;
    proof {
        assert(hook_views(copy@) =~= all.take(0));
    }
    while i < list.len()
        invariant
            i <= list.len(),
            all == hook_views(list@),
            hook_views(copy@) == all.take(i as int),
        decreases list.len() - i,
    {
        let ghost before = copy@;
        let item = list[i].copied();
        let ghost added = item@;
        copy.push(item);
        proof {
            assert(hook_views(copy@) =~= hook_views(before).push(added));
            assert(all[i as int] == added);
            assert(hook_views(copy@) =~= all.take(i as int + 1));
        }
        i += 1;
    }
    proof {
        assert(all.take(all.len() as int) =~= all);
    }
    copy
}

impl AppCategory {
    /// A copy of the value.
    pub fn copied(&self) -> (copy: AppCategory)
        ensures
            copy@ == self@,
    {
        AppCategory {
            name: self.name.clone(),
            description: copy_optional(&self.description),
            destination_root: copy_optional(&self.destination_root),
            files: copy_app_files(&self.files),
            list_mode: self.list_mode,
            post_upgrade: copy_hooks(&self.post_upgrade),
            post_install: copy_hooks(&self.post_install),
            uses_metadata: self.uses_metadata,
            has_explicit_files: self.has_explicit_files,
            artifact: match &self.artifact {
                Some(artifact) => Some(artifact.copied()),
                None => None,
            },
            permissions: match &self.permissions {
                Some(permissions) => Some(permissions.copied()),
                None => None,
            },
        }
    }
}

/// A copy of a list of categories.
pub fn copy_categories(list: &Vec<AppCategory>) -> (copy: Vec<AppCategory>)
    ensures
        category_views(copy@) == category_views(list@),
{
    let mut copy: Vec<AppCategory> = Vec::new();
    let ghost all = category_views(list@);
    let mut i: usize = 0;
    proof {
        assert(category_views(copy@) =~= all.take(0));
    }
    while i < list.len()
        invariant
            i <= list.len(),
            all == category_views(list@),
            category_views(copy@) == all.take(i as int),
        decreases list.len() - i,
    {
        let ghost before = copy@;
        let item = list[i].copied();
        let ghost added = item@;
        copy.push(item);
        proof {
            assert(category_views(copy@) =~= category_views(before).push(added));
            assert(all[i as int] == added);
            assert(category_views(copy@) =~= all.take(i as int + 1));
        }
        i += 1;
    }
    proof {
        assert(all.take(all.len() as int) =~= all);
    }
    copy
}

#[derive(Clone, Copy, Debug, PartialEq, Eq, Structural)]
pub enum AppHookPhase {
    PostInstall,
    PostUpgrade,
}

/// Run the hooks of the categories that changed.
#[derive(Clone, Debug)]
pub struct AppHookRequest {
    pub categories: Vec<AppCategory>,
    pub changed: Vec<String>,
    pub phase: AppHookPhase,
    pub show_success: bool,
}

/// Run a generator.
#[derive(Clone, Debug)]
pub struct AppGeneratorRequest {
    pub category: String,
    pub source: String,
    pub generator: AppGenerator,
    pub explicit: bool,
}

#[derive(Clone, Copy, Debug, PartialEq, Eq, Structural)]
pub enum AppArtifactAction {
    Apply,
    Remove,
}

/// Run the code of an artifact.
#[derive(Clone, Debug)]
pub struct AppArtifactRequest {
    pub category: String,
    pub artifact: AppArtifact,
    pub action: AppArtifactAction,
    pub implicit: bool,
    pub dry_run: bool,
}

/// Bring the cached preset files under a prefix up to date, or remove them.
#[derive(Clone, Debug)]
pub struct AppCacheRequest {
    pub prefix: String,
    pub dry_run: bool,
    pub remove: bool,
    pub purge: bool,
    pub overwrite: bool,
}

/// What became of the hooks.
#[derive(Clone, Debug)]
pub struct AppHookReport {
    pub outcomes: Vec<LifecycleOutcomeV1>,
    pub notes: Vec<String>,
}

/// Install the Apps of one category, or all.
#[derive(Clone, Debug)]
pub struct AppLifecycleRequest {
    pub target: Option<String>,
    pub dry_run: bool,
    pub force: bool,
}

/// Uninstall the Apps of one category, or all.
#[derive(Clone, Debug)]
pub struct AppUninstallLifecycleRequest {
    pub target: Option<String>,
    pub dry_run: bool,
    pub force: bool,
    pub purge: bool,
}

/// Generate installed files anew.
#[derive(Clone, Debug)]
pub struct AppRefreshRequest {
    pub category: String,
    pub file: Option<String>,
    pub force: bool,
}

/// Bring installed Apps up to date.
#[derive(Clone, Debug)]
pub struct AppUpgradeRequest {
    pub category: Option<String>,
    pub prune_stale: bool,
    pub prompt_stale: bool,
    pub show_hook_success: bool,
}

#[derive(Clone, Copy, Debug, PartialEq, Eq, Structural)]
pub enum AppFileAction {
    Installed,
    BackedUp,
    Unchanged,
    PreviewInstall,
    GeneratorPreserved,
    Removed,
    Restored,
    ForceRemoved,
    ForceRestored,
    Missing,
    UserModified,
    PreviewRemove,
    Failed,
}

/// What became of one App file.
#[derive(Clone, Debug)]
pub struct AppFileLifecycleReport {
    pub category: String,
    pub source: String,
    pub destination: String,
    pub transforms: Vec<String>,
    pub backup: Option<String>,
    pub restart_hint: Option<String>,
    pub generator_error: Option<String>,
    pub error: Option<String>,
    pub status: LifecycleStatus,
    pub action: AppFileAction,
}

/// The values of an `AppFileLifecycleReport`.
pub ghost struct AppFileLifecycleReportView {
    pub category: Seq<char>,
    pub source: Seq<char>,
    pub destination: Seq<char>,
    pub transforms: Seq<Seq<char>>,
    pub backup: Option<Seq<char>>,
    pub restart_hint: Option<Seq<char>>,
    pub generator_error: Option<Seq<char>>,
    pub error: Option<Seq<char>>,
    pub status: LifecycleStatus,
    pub action: AppFileAction,
}

impl View for AppFileLifecycleReport {
    type V = AppFileLifecycleReportView;

    open spec fn view(&self) -> AppFileLifecycleReportView {
        AppFileLifecycleReportView {
            category: self.category@,
            source: self.source@,
            destination: self.destination@,
            transforms: texts(self.transforms@),
            backup: optional_text(self.backup),
            restart_hint: optional_text(self.restart_hint),
            generator_error: optional_text(self.generator_error),
            error: optional_text(self.error),
            status: self.status,
            action: self.action,
        }
    }
}

/// The views of a list of file reports.
pub open spec fn file_report_views(reports: Seq<AppFileLifecycleReport>) -> Seq<
    AppFileLifecycleReportView,
> {
    reports.map_values(|report: AppFileLifecycleReport| report@)
}

/// What became of the Apps.
#[derive(Clone, Debug)]
pub struct AppLifecycleReport {
    pub categories: Vec<AppCategory>,
    pub files: Vec<AppFileLifecycleReport>,
    pub lifecycle: LifecycleResultV1,
}

impl AppLifecycleReport {
    pub fn new(operation: LifecycleOperation, dry_run: bool, categories: Vec<AppCategory>) -> (
        report: AppLifecycleReport)
        ensures
            report.categories == categories,
            report.files@.len() == 0,
            report.lifecycle.operation == operation,
            report.lifecycle.dry_run == dry_run,
            report.lifecycle.outcomes@.len() == 0,
    {
        AppLifecycleReport {
            categories,
            files: Vec::new(),
            lifecycle: LifecycleResultV1::new(operation, dry_run),
        }
    }

    /// Adds the report of one file.
    pub fn push_file(&mut self, report: AppFileLifecycleReport)
        ensures
            final(self).categories == old(self).categories,
            final(self).lifecycle == old(self).lifecycle,
            file_report_views(final(self).files@) == file_report_views(old(self).files@).push(
                report@,
            ),
    {
        let ghost before = self.files@;
        self.files.push(report);
        proof {
            assert(file_report_views(self.files@) =~= file_report_views(before).push(report@));
        }
    }
}

/// What became of the Apps in an upgrade.
#[derive(Clone, Debug)]
pub struct AppUpgradeLifecycleReport {
    pub files: Vec<AppFileLifecycleReport>,
    pub updated_categories: Vec<String>,
    pub skipped: usize,
    pub failed: usize,
    pub user_modified: usize,
    pub restart_hints: Vec<String>,
    pub lifecycle: LifecycleResultV1,
}

} // verus!
