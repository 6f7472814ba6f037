//! Taking the snapshot of preset files.

use shine_core::bootstrap::{
    capture_embedded_preset_snapshot, capture_preset_snapshot, decide_tree_step, preset_path,
    PresetSnapshotRequest, PresetSnapshotSource, TreeStep,
};
use shine_core::host::FileKind;
use shine_core::presets::{PresetSnapshot, PresetSourceKind};
use std::collections::BTreeMap;

/// Files in memory, found from a directory as a host would walk it.
fn discover(files: &BTreeMap<&str, &[u8]>, root: &str) -> Vec<(String, Vec<u8>)> {
    let mut found = Vec::new();
    for (path, bytes) in files {
        let Some(logical) = preset_path(path, root) else {
            continue;
        };
        let mut directory = root.to_string();
        let mut reached = true;
        let names: Vec<&str> = logical.split('/').collect();
        for name in &names[..names.len() - 1] {
            directory = format!("{directory}/{name}");
            reached &= decide_tree_step(FileKind::Directory, &directory) == TreeStep::Descend;
        }
        if reached && decide_tree_step(FileKind::File, path) == TreeStep::Read {
            found.push((logical, bytes.to_vec()));
        }
    }
    found
}

#[test]
fn external_and_overlay_discovery_use_the_selected_host() {
    let mut host: BTreeMap<&str, &[u8]> = BTreeMap::new();
    host.insert("/virtual/base/app/demo/shine.toml", b"base");
    host.insert("/virtual/base/node_modules/ignored.js", b"ignored");
    host.insert("/virtual/overlay/app/demo/shine.toml", b"overlay");

    let snapshot = capture_preset_snapshot(
        PresetSnapshotRequest {
            source: PresetSnapshotSource::External("/virtual/base".to_string()),
            overlay_root: Some("/virtual/overlay".to_string()),
        },
        discover(&host, "/virtual/base"),
        discover(&host, "/virtual/overlay"),
    );

    assert_eq!(
        snapshot.get("app/demo/shine.toml"),
        Some(b"overlay".as_slice())
    );
    assert!(snapshot.get("node_modules/ignored.js").is_none());
    assert_eq!(
        snapshot
            .origin("app/demo/shine.toml")
            .and_then(|origin| origin.physical_path.as_deref()),
        Some("/virtual/overlay/app/demo/shine.toml")
    );
}

#[test]
fn embedded_files_have_no_place_on_disk() {
    let snapshot = capture_embedded_preset_snapshot(vec![
        ("shell/proxy/proxy.sh".to_string(), b"one".to_vec()),
        ("app/demo/config".to_string(), b"two".to_vec()),
        ("app/demo/config".to_string(), b"three".to_vec()),
    ]);
    assert_eq!(snapshot.get("app/demo/config"), Some(b"three".as_slice()));
    assert_eq!(snapshot.files.len(), 2);
    assert_eq!(snapshot.files[0].path, "app/demo/config");
    let origin = snapshot.origin("shell/proxy/proxy.sh").unwrap();
    assert_eq!(origin.source_kind, PresetSourceKind::Embedded);
    assert!(origin.physical_path.is_none());
    assert!(origin.category_root.is_none());
}

#[test]
fn an_overlay_leaves_the_other_files_alone() {
    let snapshot = PresetSnapshot::builder(PresetSourceKind::External)
        .base_root("/base".to_string())
        .overlay_root("/over".to_string())
        .file("app/demo/a", b"base a".to_vec())
        .file("app/demo/b", b"base b".to_vec())
        .overlay_file("app/demo/b", b"over b".to_vec())
        .build();
    assert_eq!(snapshot.get("app/demo/a"), Some(b"base a".as_slice()));
    assert_eq!(snapshot.get("app/demo/b"), Some(b"over b".as_slice()));
    assert!(!snapshot.file("app/demo/a").unwrap().is_overlay);
    let over = snapshot.file("app/demo/b").unwrap();
    assert!(over.is_overlay);
    assert_eq!(over.origin.physical_path.as_deref(), Some("/over/app/demo/b"));
    assert_eq!(over.origin.category_root.as_deref(), Some("/over/app/demo"));
}

#[test]
fn the_digest_follows_the_content() {
    let one = PresetSnapshot::builder(PresetSourceKind::External)
        .file("app/demo/a", b"one".to_vec())
        .build();
    let same = PresetSnapshot::builder(PresetSourceKind::External)
        .file("app/demo/a", b"one".to_vec())
        .build();
    let other = PresetSnapshot::builder(PresetSourceKind::External)
        .file("app/demo/a", b"two".to_vec())
        .build();
    assert!(one.digest_v1().same(&same.digest_v1()));
    assert!(!one.digest_v1().same(&other.digest_v1()));
}

#[test]
fn links_are_passed_over() {
    assert_eq!(decide_tree_step(FileKind::Symlink, "/base/app"), TreeStep::Skip);
    assert_eq!(decide_tree_step(FileKind::Directory, "/base/app"), TreeStep::Descend);
    assert_eq!(preset_path("/elsewhere/app", "/base"), None);
}
