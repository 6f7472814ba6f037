//! Receipts, approvals, and the members that a merge owns.

use shine_core::content::hash_content;
use shine_core::env::parse_env_specs;
use shine_core::json::{
    has_json_member, installed_json_hash, managed_json_hash, managed_json_keys_absent,
    managed_json_keys_match, merge_managed_json_bytes, remove_managed_json_bytes,
    restore_managed_json_bytes, JsonFault,
};
use shine_core::manifest::{
    backup_path, managed_file_rollback_path, AppEntry, AppInstallStrategy, AppManifest,
    APP_MANIFEST_SCHEMA_VERSION,
};
use shine_core::plan::{
    PermissionSetV1, PermissionV1, PlanActionV1, PlanApprovalError, PlanApprovalV1, PlanInputsV1,
    PlanOperationV1, PlanStepV1, PlanV1, SnapshotDigestV1,
};

fn entry(source: &str, destination: &str, content: &[u8]) -> AppEntry {
    AppEntry {
        source: source.to_string(),
        destination: destination.to_string(),
        backup: None,
        content_hash: hash_content(content),
        install_strategy: AppInstallStrategy::Copy,
        uses_env: false,
        requires_admin: false,
    }
}

#[test]
fn a_destination_has_one_receipt() {
    let mut manifest = AppManifest::default();
    manifest.upsert(entry("app/demo/a", "/home/test/a", b"one"));
    manifest.upsert(entry("app/demo/b", "/home/test/b", b"one"));
    manifest.upsert(entry("app/other/a", "/home/test//a/", b"two"));
    assert_eq!(manifest.entries.len(), 2);
    let found = manifest.find_by_dest("/home/test/a").unwrap();
    assert_eq!(found.source, "app/other/a");
    assert_eq!(found.content_hash, hash_content(b"two"));
    manifest.remove_by_dest("/home/test/./a");
    assert!(!manifest.owns_destination("/home/test/a"));
    assert!(manifest.find_by_source("app/demo/b").is_some());
}

#[test]
fn receipts_of_a_newer_program_are_refused() {
    let mut manifest = AppManifest::default();
    assert!(manifest.clone().accept().is_ok());
    manifest.schema_version = APP_MANIFEST_SCHEMA_VERSION + 1;
    let refused = manifest.accept().unwrap_err();
    assert_eq!(refused.version, APP_MANIFEST_SCHEMA_VERSION + 1);
}

#[test]
fn backups_and_rollback_material_stand_beside_their_file() {
    let backup = backup_path("/home/test/a");
    let rollback = managed_file_rollback_path("/home/test/a");
    assert!(backup.starts_with("/home/test/a") && rollback.starts_with("/home/test/a"));
    assert_ne!(backup, rollback);
}

fn digest(domain: &str, value: &[u8]) -> SnapshotDigestV1 {
    let mut builder = SnapshotDigestV1::builder(domain);
    builder.add_observation("state", value);
    builder.finish()
}

fn plan(state: &[u8], action: PlanActionV1, program: &str) -> PlanV1 {
    let mut required = PermissionSetV1::new();
    required.insert(PermissionV1::Command { program: program.to_string() });
    let granted = required.copied();
    PlanV1::new(
        PlanOperationV1::Install,
        PlanInputsV1 { preset: digest("preset", b""), state: digest("state", state) },
        vec![PlanStepV1::new("app/demo", Some("config"), action)],
        required,
        &granted,
        Vec::new(),
    )
}

#[test]
fn an_approval_is_for_one_plan() {
    let reviewed = plan(b"one", PlanActionV1::Create, "bun");
    let approval = PlanApprovalV1::for_reviewed_plan(&reviewed).unwrap();
    assert!(approval.validate(&reviewed).is_ok());
    assert!(approval.validate(&plan(b"one", PlanActionV1::Create, "bun")).is_ok());
    let others = [
        plan(b"two", PlanActionV1::Create, "bun"),
        plan(b"one", PlanActionV1::Update, "bun"),
        plan(b"one", PlanActionV1::Create, "node"),
    ];
    for other in &others {
        assert_eq!(approval.validate(other).unwrap_err(), PlanApprovalError::PlanChanged);
    }
    let blocked = plan(b"one", PlanActionV1::Blocked, "bun");
    assert!(!blocked.is_ready());
    assert_eq!(
        PlanApprovalV1::for_reviewed_plan(&blocked).err(),
        Some(PlanApprovalError::PlanNotReady)
    );
    let mut unknown = approval.clone();
    unknown.schema_version += 1;
    assert_eq!(
        unknown.validate(&reviewed).unwrap_err(),
        PlanApprovalError::UnsupportedSchema
    );
}

fn keys(names: &[&str]) -> Vec<String> {
    names.iter().map(|name| name.to_string()).collect()
}

fn value(text: &[u8]) -> serde_json::Value {
    serde_json::from_slice(text).unwrap()
}

#[test]
fn a_merge_and_its_removal_leave_other_members_alone() {
    let keys = keys(&["theme"]);
    let original: &[u8] = br#"{"mine":[1,2],"theme":"light"}"#;
    let source: &[u8] = br#"{"theme":"dark","unlisted":true}"#;
    let merged = merge_managed_json_bytes(Some(original), source, &keys).unwrap();
    assert_eq!(value(&merged), value(br#"{"mine":[1,2],"theme":"dark"}"#));
    let removed = remove_managed_json_bytes(&merged, &keys).unwrap();
    assert_eq!(value(&removed), value(br#"{"mine":[1,2]}"#));
    let created = merge_managed_json_bytes(None, source, &keys).unwrap();
    assert_eq!(value(&created), value(br#"{"theme":"dark"}"#));
    assert!(managed_json_keys_absent(&removed, &keys).unwrap());
    assert!(!managed_json_keys_absent(&merged, &keys).unwrap());
}

#[test]
fn restoring_undoes_a_merge_and_a_removal() {
    let keys = keys(&["theme", "font"]);
    let original: &[u8] = br#"{"mine":1,"theme":"light"}"#;
    let source: &[u8] = br#"{"theme":"dark","font":"mono"}"#;
    let merged = merge_managed_json_bytes(Some(original), source, &keys).unwrap();
    let restored = restore_managed_json_bytes(&merged, original, &keys).unwrap();
    assert_eq!(value(&restored), value(original));
    let removed = remove_managed_json_bytes(original, &keys).unwrap();
    let restored = restore_managed_json_bytes(&removed, original, &keys).unwrap();
    assert_eq!(value(&restored), value(original));
    assert!(managed_json_keys_match(&restored, original, &keys).unwrap());
    assert!(!managed_json_keys_match(&merged, original, &keys).unwrap());
}

#[test]
fn objects_are_written_one_member_to_a_line() {
    let keys = keys(&["theme"]);
    let merged = merge_managed_json_bytes(None, br#"{"theme":"dark"}"#, &keys).unwrap();
    assert_eq!(String::from_utf8(merged).unwrap().trim_end(), "{\n  \"theme\": \"dark\"\n}");
}

#[test]
fn managed_members_have_an_identity() {
    let keys = keys(&["theme"]);
    let dark = managed_json_hash(br#"{"theme":"dark"}"#, &keys).unwrap();
    assert_eq!(installed_json_hash(br#"{"a":1,"theme":"dark"}"#, &keys).unwrap(), Some(dark));
    assert_ne!(installed_json_hash(br#"{"theme":"light"}"#, &keys).unwrap(), Some(dark));
    assert_eq!(installed_json_hash(b"{}", &keys).unwrap(), None);
    let missing = managed_json_hash(b"{}", &keys).unwrap_err();
    assert_eq!(missing, JsonFault::MissingManagedKey { index: 0 });
    assert!(missing.message(&keys).contains("theme"));
    assert_eq!(
        merge_managed_json_bytes(Some(b"[]"), br#"{"theme":1}"#, &keys).unwrap_err(),
        JsonFault::DestinationNotObject
    );
    assert_eq!(has_json_member(br#"{"a":null}"#, "a"), Some(true));
    assert_eq!(has_json_member(br#"{"a":null}"#, "b"), Some(false));
    assert_eq!(has_json_member(b"not json", "a"), None);
}

#[test]
fn variables_are_passed_under_their_own_or_another_name() {
    let specs = parse_env_specs(&keys(&["TOKEN", "SOURCE:TARGET"])).unwrap();
    assert_eq!((specs[0].source.as_str(), specs[0].target.as_str()), ("TOKEN", "TOKEN"));
    assert_eq!((specs[1].source.as_str(), specs[1].target.as_str()), ("SOURCE", "TARGET"));
    assert!(parse_env_specs(&keys(&["1BAD"])).is_err());
}
