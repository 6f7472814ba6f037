//! What the metadata file of an App category says, field by field.

use vstd::prelude::*;

use crate::app_types::PermissionDeclarationV1;

verus! {

/// The metadata of a category.
#[derive(Clone, Debug)]
pub struct CategoryToml {
    pub description: Option<String>,
    pub dest: DestToml,
    pub list_mode: Option<ListModeToml>,
    pub post_upgrade: Option<HookSpecToml>,
    pub post_install: Option<HookSpecToml>,
    pub artifact: Option<ArtifactToml>,
    pub files: Option<Vec<FileToml>>,
    pub permissions: Option<PermissionDeclarationV1>,
}

#[derive(Clone, Debug)]
pub struct ArtifactToml {
    pub script: String,
    pub teardown: Option<String>,
    pub runtime: Option<ArtifactRuntimeToml>,
}

#[derive(Clone, Copy, Debug, PartialEq, Eq, Structural)]
pub enum ArtifactRuntimeToml {
    Native,
    Bun,
}

/// One hook, or a list of hooks.
#[derive(Clone, Debug)]
pub enum HookSpecToml {
    Single(HookToml),
    Multiple(Vec<HookToml>),
}

#[derive(Clone, Debug)]
pub struct HookToml {
    pub command: String,
    pub args: Vec<String>,
    pub show_output: bool,
}

/// A destination: one path, a path under a named directory, or one path for each
/// platform.
#[derive(Clone, Debug)]
pub enum DestToml {
    Single(String),
    Rooted(RootedDestToml),
    Platforms(PlatformDestToml),
}

#[derive(Clone, Debug)]
pub struct RootedDestToml {
    pub base: DestBaseToml,
    pub path: String,
}

#[derive(Clone, Copy, Debug, PartialEq, Eq, Structural)]
pub enum DestBaseToml {
    DataDir,
}

#[derive(Clone, Debug)]
pub struct PlatformDestToml {
    pub macos: Option<String>,
    pub linux: Option<String>,
    pub windows: Option<String>,
    pub unix: Option<String>,
}

#[derive(Clone, Copy, Debug, PartialEq, Eq, Structural)]
pub enum ListModeToml {
    Category,
    Files,
}

#[derive(Clone, Copy, Debug, PartialEq, Eq, Structural)]
pub enum InstallModeToml {
    Copy,
    JsonMerge,
}

/// The metadata of one file.
#[derive(Clone, Debug)]
pub struct FileToml {
    pub source: String,
    pub target: Option<String>,
    pub dest: Option<DestToml>,
    pub description: Option<String>,
    pub display_name: Option<String>,
    pub platforms: Option<Vec<String>>,
    pub transform: Option<String>,
    pub transforms: Option<Vec<String>>,
    pub install_mode: Option<InstallModeToml>,
    pub managed_keys: Option<Vec<String>>,
    pub requires_admin: bool,
    pub restart_hint: Option<String>,
    pub generator: Option<GeneratorToml>,
}

#[derive(Clone, Debug)]
pub struct GeneratorToml {
    pub script: String,
    pub runtime: Option<ArtifactRuntimeToml>,
    pub env: Vec<String>,
    pub when_env: String,
    pub auto: bool,
}

/// A generator runs by itself unless its metadata says otherwise.
pub fn default_true() -> (value: bool)
    ensures
        value,
{
    true
}

} // verus!
