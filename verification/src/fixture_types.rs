//! What the author of a preset writes down to have it tried.

use vstd::prelude::*;
use vstd::string::*;

use crate::authoring::{SecretVersion, TrustCapabilityV1};
use crate::context::RuntimePlatform;

verus! {

/// The cases of a preset.
#[derive(Clone, Debug)]
pub struct FixtureDocumentV1 {
    pub schema_version: u32,
    pub cases: Vec<FixtureCaseV1>,
}

/// One case: a host, and what is expected of a plan on it.
#[derive(Clone, Debug)]
pub struct FixtureCaseV1 {
    pub name: String,
    pub platform: FixturePlatform,
    pub host: FixtureHostStateV1,
    pub expect: FixtureExpectationV1,
}

#[derive(Clone, Copy, Debug, PartialEq, Eq, Structural)]
pub enum FixturePlatform {
    Macos,
    Linux,
    Windows,
}

impl FixturePlatform {
    pub open spec fn platform(self) -> RuntimePlatform {
        match self {
            FixturePlatform::Macos => RuntimePlatform::Macos,
            FixturePlatform::Linux => RuntimePlatform::Linux,
            FixturePlatform::Windows => RuntimePlatform::Windows,
        }
    }

    /// The platform that is meant.
    pub fn runtime(self) -> (platform: RuntimePlatform)
        ensures
            platform == self.platform(),
    {
        match self {
            FixturePlatform::Macos => RuntimePlatform::Macos,
            FixturePlatform::Linux => RuntimePlatform::Linux,
            FixturePlatform::Windows => RuntimePlatform::Windows,
        }
    }
}

/// A host as a case describes it.
#[derive(Clone, Debug)]
pub struct FixtureHostStateV1 {
    pub environment: Vec<String>,
    pub secret_versions: Vec<SecretVersion>,
    pub files: Vec<FixtureFileV1>,
    pub commands: Vec<String>,
    pub trust: Vec<FixtureTrustV1>,
    pub receipts: FixtureReceiptsV1,
    pub administrator: bool,
}

/// A file of the host.
#[derive(Clone, Debug)]
pub struct FixtureFileV1 {
    pub base: FixturePathBaseV1,
    pub path: String,
    pub content: String,
}

/// The directory that the path of a file is under.
#[derive(Clone, Copy, Debug, PartialEq, Eq, Structural)]
pub enum FixturePathBaseV1 {
    Home,
    Shine,
    DataDir,
    Bin,
    Absolute,
}

/// Code that is trusted.
#[derive(Clone, Debug)]
pub struct FixtureTrustV1 {
    pub target: String,
    pub capability: FixtureTrustCapabilityV1,
}

#[derive(Clone, Copy, Debug, PartialEq, Eq, Structural)]
pub enum FixtureTrustCapabilityV1 {
    AppHook,
    AppGenerator,
    AppArtifact,
    SysBootstrapScript,
    SysProfileCode,
}

impl FixtureTrustCapabilityV1 {
    pub open spec fn capability(self) -> TrustCapabilityV1 {
        match self {
            FixtureTrustCapabilityV1::AppHook => TrustCapabilityV1::AppHook,
            FixtureTrustCapabilityV1::AppGenerator => TrustCapabilityV1::AppGenerator,
            FixtureTrustCapabilityV1::AppArtifact => TrustCapabilityV1::AppArtifact,
            FixtureTrustCapabilityV1::SysBootstrapScript => TrustCapabilityV1::SysBootstrapScript,
            FixtureTrustCapabilityV1::SysProfileCode => TrustCapabilityV1::SysProfileCode,
        }
    }
}

impl From<FixtureTrustCapabilityV1> for TrustCapabilityV1 {
    fn from(value: FixtureTrustCapabilityV1) -> (capability: TrustCapabilityV1) {
        match value {
            FixtureTrustCapabilityV1::AppHook => TrustCapabilityV1::AppHook,
            FixtureTrustCapabilityV1::AppGenerator => TrustCapabilityV1::AppGenerator,
            FixtureTrustCapabilityV1::AppArtifact => TrustCapabilityV1::AppArtifact,
            FixtureTrustCapabilityV1::SysBootstrapScript => TrustCapabilityV1::SysBootstrapScript,
            FixtureTrustCapabilityV1::SysProfileCode => TrustCapabilityV1::SysProfileCode,
        }
    }
}

impl vstd::std_specs::convert::FromSpecImpl<FixtureTrustCapabilityV1> for TrustCapabilityV1 {
    open spec fn obeys_from_spec() -> bool {
        true
    }

    open spec fn from_spec(value: FixtureTrustCapabilityV1) -> TrustCapabilityV1 {
        value.capability()
    }
}

/// What was installed before, as the documents of the receipts.
#[derive(Clone, Debug)]
pub struct FixtureReceiptsV1 {
    pub app: Option<String>,
    pub shell: Option<String>,
    pub sys: Option<String>,
}

/// What is expected; what is left out is not looked at.
#[derive(Clone, Debug)]
pub struct FixtureExpectationV1 {
    pub valid: Option<bool>,
    pub ready: Option<bool>,
    pub plan_kinds: Option<Vec<String>>,
    pub diagnostic_codes: Option<Vec<String>>,
    pub step_diagnostic_codes: Option<Vec<String>>,
    pub actions: Option<Vec<String>>,
    pub required_permissions: Option<Vec<String>>,
    pub missing_permissions: Option<Vec<String>>,
    pub permission_diagnostic_codes: Option<Vec<String>>,
}

/// Why a fixture cannot be used.
#[derive(Clone, Copy, Debug, PartialEq, Eq, Structural)]
pub enum FixtureFault {
    InvalidInput,
    SingleCategoryRequired,
    Missing,
    Invalid,
    SchemaUnsupported,
    CasesEmpty,
    CaseNameInvalid,
    EnvironmentInvalid,
    EnvironmentDuplicate,
    SecretInvalid,
    EnvironmentSecretConflict,
    FileTooLarge,
    FilePathInvalid,
    FileDuplicate,
    CommandInvalid,
    ReceiptTooLarge,
    ReceiptPlaceholderInvalid,
    ReceiptInvalid,
    ReceiptSchemaUnsupported,
    TrustTargetInvalid,
    TrustDuplicate,
}

impl FixtureFault {
    pub open spec fn text(self) -> Seq<char> {
        match self {
            FixtureFault::InvalidInput => "invalid_input"@,
            FixtureFault::SingleCategoryRequired => "single_category_required"@,
            FixtureFault::Missing => "fixture_missing"@,
            FixtureFault::Invalid => "fixture_invalid"@,
            FixtureFault::SchemaUnsupported => "fixture_schema_unsupported"@,
            FixtureFault::CasesEmpty => "fixture_cases_empty"@,
            FixtureFault::CaseNameInvalid => "fixture_case_name_invalid"@,
            FixtureFault::EnvironmentInvalid => "fixture_environment_invalid"@,
            FixtureFault::EnvironmentDuplicate => "fixture_environment_duplicate"@,
            FixtureFault::SecretInvalid => "fixture_secret_invalid"@,
            FixtureFault::EnvironmentSecretConflict => "fixture_environment_secret_conflict"@,
            FixtureFault::FileTooLarge => "fixture_file_too_large"@,
            FixtureFault::FilePathInvalid => "fixture_file_path_invalid"@,
            FixtureFault::FileDuplicate => "fixture_file_duplicate"@,
            FixtureFault::CommandInvalid => "fixture_command_invalid"@,
            FixtureFault::ReceiptTooLarge => "fixture_receipt_too_large"@,
            FixtureFault::ReceiptPlaceholderInvalid => "fixture_receipt_placeholder_invalid"@,
            FixtureFault::ReceiptInvalid => "fixture_receipt_invalid"@,
            FixtureFault::ReceiptSchemaUnsupported => "fixture_receipt_schema_unsupported"@,
            FixtureFault::TrustTargetInvalid => "fixture_trust_target_invalid"@,
            FixtureFault::TrustDuplicate => "fixture_trust_duplicate"@,
        }
    }

    /// The stable code of the fault.
    pub fn as_str(self) -> (code: &'static str)
        ensures
            code@ == self.text(),
    {
        match self {
            FixtureFault::InvalidInput => "invalid_input",
            FixtureFault::SingleCategoryRequired => "single_category_required",
            FixtureFault::Missing => "fixture_missing",
            FixtureFault::Invalid => "fixture_invalid",
            FixtureFault::SchemaUnsupported => "fixture_schema_unsupported",
            FixtureFault::CasesEmpty => "fixture_cases_empty",
            FixtureFault::CaseNameInvalid => "fixture_case_name_invalid",
            FixtureFault::EnvironmentInvalid => "fixture_environment_invalid",
            FixtureFault::EnvironmentDuplicate => "fixture_environment_duplicate",
            FixtureFault::SecretInvalid => "fixture_secret_invalid",
            FixtureFault::EnvironmentSecretConflict => "fixture_environment_secret_conflict",
            FixtureFault::FileTooLarge => "fixture_file_too_large",
            FixtureFault::FilePathInvalid => "fixture_file_path_invalid",
            FixtureFault::FileDuplicate => "fixture_file_duplicate",
            FixtureFault::CommandInvalid => "fixture_command_invalid",
            FixtureFault::ReceiptTooLarge => "fixture_receipt_too_large",
            FixtureFault::ReceiptPlaceholderInvalid => "fixture_receipt_placeholder_invalid",
            FixtureFault::ReceiptInvalid => "fixture_receipt_invalid",
            FixtureFault::ReceiptSchemaUnsupported => "fixture_receipt_schema_unsupported",
            FixtureFault::TrustTargetInvalid => "fixture_trust_target_invalid",
            FixtureFault::TrustDuplicate => "fixture_trust_duplicate",
        }
    }
}

} // verus!
