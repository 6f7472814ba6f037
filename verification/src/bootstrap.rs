//! Taking the snapshot of preset files that a command works on.

use vstd::prelude::*;
use vstd::string::*;

use crate::content::copy_bytes;
use crate::host::FileKind;
use crate::path::{
    components, components_below, is_under, join_texts, logical_text, path_components, strip_root,
};
use crate::plan::optional_text;
use crate::presets::{
    base_file, overlaid_file, preset_file, PresetFileView, PresetSnapshot, PresetSnapshotBuilder,
    PresetSourceKind,
};
use crate::text::{same_text, texts};

verus! {

/// Where the base files come from: with the program, or from a directory.
#[derive(Clone, Debug)]
pub enum PresetSnapshotSource {
    Embedded(Vec<(String, Vec<u8>)>),
    External(String),
}

/// A snapshot to be taken.
#[derive(Clone, Debug)]
pub struct PresetSnapshotRequest {
    pub source: PresetSnapshotSource,
    pub overlay_root: Option<String>,
}

/// The content that a list gives to a path: the last one.
pub open spec fn listed(files: Seq<(String, Vec<u8>)>, path: Seq<char>) -> Option<Seq<u8>>
    decreases files.len(),
{
    if files.len() == 0 {
        None
    } else if files.last().0@ == path {
        Some(files.last().1@)
    } else {
        listed(files.drop_last(), path)
    }
}

/// Whether a snapshot holds exactly the listed base files over what was there.
pub open spec fn has_base(
    before: Seq<PresetFileView>,
    after: Seq<PresetFileView>,
    source_kind: PresetSourceKind,
    root: Option<Seq<char>>,
    files: Seq<(String, Vec<u8>)>,
) -> bool {
    forall|path: Seq<char>| #[trigger]
        preset_file(after, path) == match listed(files, path) {
            Some(bytes) => Some(base_file(source_kind, root, path, bytes)),
            None => preset_file(before, path),
        }
}

/// Whether a snapshot holds exactly the listed overlay files over what was there.
pub open spec fn has_overlay(
    before: Seq<PresetFileView>,
    after: Seq<PresetFileView>,
    root: Option<Seq<char>>,
    files: Seq<(String, Vec<u8>)>,
) -> bool {
    forall|path: Seq<char>| #[trigger]
        preset_file(after, path) == match listed(files, path) {
            Some(bytes) => Some(overlaid_file(root, path, bytes)),
            None => preset_file(before, path),
        }
}

fn add_base(builder: PresetSnapshotBuilder, files: &Vec<(String, Vec<u8>)>) -> (result:
    PresetSnapshotBuilder)
    requires
        builder.well_formed(),
    ensures
        result.well_formed(),
        result.source_kind == builder.source_kind,
        result.base_root == builder.base_root,
        result.overlay_root == builder.overlay_root,
        has_base(
            builder@,
            result@,
            builder.source_kind,
            optional_text(builder.base_root),
            files@,
        ),
{
    let ghost start = builder@;
    let mut result = builder;
    let mut i: usize = 0;
    proof {
        assert(files@.take(0) =~= Seq::<(String, Vec<u8>)>::empty());
    }
    while i < files.len()
        invariant
            i <= files.len(),
            result.well_formed(),
            result.source_kind == builder.source_kind,
            result.base_root == builder.base_root,
            result.overlay_root == builder.overlay_root,
            has_base(
                start,
                result@,
                builder.source_kind,
                optional_text(builder.base_root),
                files@.take(i as int),
            ),
        decreases files.len() - i,
    {
        let ghost before = result@;
        proof {
            assert(files@.take(i as int + 1).drop_last() =~= files@.take(i as int));
            assert(files@.take(i as int + 1).last() == files@[i as int]);
        }
        result = result.file(files[i].0.as_str(), copy_bytes(files[i].1.as_slice()));
        proof {
            assert forall|path: Seq<char>| #[trigger] preset_file(result@, path) == match listed(
                files@.take(i as int + 1),
                path,
            ) {
                Some(bytes) => Some(
                    base_file(builder.source_kind, optional_text(builder.base_root), path, bytes),
                ),
                None => preset_file(start, path),
            } by {
                assert(preset_file(before, path) == match listed(files@.take(i as int), path) {
                    Some(bytes) => Some(
                        base_file(
                            builder.source_kind,
                            optional_text(builder.base_root),
                            path,
                            bytes,
                        ),
                    ),
                    None => preset_file(start, path),
                });
            }
        }
        i += 1;
    }
    proof {
        assert(files@.take(files@.len() as int) =~= files@);
    }
    result
}

fn add_overlay(builder: PresetSnapshotBuilder, files: &Vec<(String, Vec<u8>)>) -> (result:
    PresetSnapshotBuilder)
    requires
        builder.well_formed(),
    ensures
        result.well_formed(),
        has_overlay(builder@, result@, optional_text(builder.overlay_root), files@),
{
    let ghost start = builder@;
    let mut result = builder;
    let mut i: usize = 0;
    proof {
        assert(files@.take(0) =~= Seq::<(String, Vec<u8>)>::empty());
    }
    while i < files.len()
        invariant
            i <= files.len(),
            result.well_formed(),
            result.overlay_root == builder.overlay_root,
            has_overlay(
                start,
                result@,
                optional_text(builder.overlay_root),
                files@.take(i as int),
            ),
        decreases files.len() - i,
    {
        let ghost before = result@;
        proof {
            assert(files@.take(i as int + 1).drop_last() =~= files@.take(i as int));
            assert(files@.take(i as int + 1).last() == files@[i as int]);
        }
        result = result.overlay_file(files[i].0.as_str(), copy_bytes(files[i].1.as_slice()));
        proof {
            assert forall|path: Seq<char>| #[trigger] preset_file(result@, path) == match listed(
                files@.take(i as int + 1),
                path,
            ) {
                Some(bytes) => Some(
                    overlaid_file(optional_text(builder.overlay_root), path, bytes),
                ),
                None => preset_file(start, path),
            } by {
                assert(preset_file(before, path) == match listed(files@.take(i as int), path) {
                    Some(bytes) => Some(
                        overlaid_file(optional_text(builder.overlay_root), path, bytes),
                    ),
                    None => preset_file(start, path),
                });
            }
        }
        i += 1;
    }
    proof {
        assert(files@.take(files@.len() as int) =~= files@);
    }
    result
}

fn embedded_snapshot_builder(files: &Vec<(String, Vec<u8>)>) -> (builder: PresetSnapshotBuilder)
    ensures
        builder.well_formed(),
        builder.source_kind == PresetSourceKind::Embedded,
        builder.base_root is None,
        builder.overlay_root is None,
        has_base(Seq::empty(), builder@, PresetSourceKind::Embedded, None, files@),
{
    let builder = PresetSnapshot::builder(PresetSourceKind::Embedded);
    proof {
        assert(builder@ =~= Seq::<PresetFileView>::empty());
    }
    add_base(builder, files)
}

/// The snapshot of the files that come with the program.
pub fn capture_embedded_preset_snapshot(files: Vec<(String, Vec<u8>)>) -> (snapshot: PresetSnapshot)
    ensures
        snapshot.well_formed(),
        has_base(Seq::empty(), snapshot@, PresetSourceKind::Embedded, None, files@),
{
    embedded_snapshot_builder(&files).build()
}

/// The file that a snapshot holds for a path: that of the overlay, or that of the
/// base.
pub open spec fn captured_file(
    source_kind: PresetSourceKind,
    base_root: Option<Seq<char>>,
    base: Seq<(String, Vec<u8>)>,
    overlay_root: Option<Seq<char>>,
    overlay: Seq<(String, Vec<u8>)>,
    path: Seq<char>,
) -> Option<PresetFileView> {
    match listed(overlay, path) {
        Some(bytes) => Some(overlaid_file(overlay_root, path, bytes)),
        None => match listed(base, path) {
            Some(bytes) => Some(base_file(source_kind, base_root, path, bytes)),
            None => None,
        },
    }
}

/// The snapshot of the base and the overlay: `base` holds the files found under an
/// external base, `overlay` those found under the overlay.
pub fn capture_preset_snapshot(
    request: PresetSnapshotRequest,
    base: Vec<(String, Vec<u8>)>,
    overlay: Vec<(String, Vec<u8>)>,
) -> (snapshot: PresetSnapshot)
    ensures
        snapshot.well_formed(),
        forall|path: Seq<char>| #[trigger]
            preset_file(snapshot@, path) == match request.source {
                PresetSnapshotSource::Embedded(files) => captured_file(
                    PresetSourceKind::Embedded,
                    None,
                    files@,
                    optional_text(request.overlay_root),
                    if request.overlay_root is Some {
                        overlay@
                    } else {
                        Seq::empty()
                    },
                    path,
                ),
                PresetSnapshotSource::External(root) => captured_file(
                    PresetSourceKind::External,
                    Some(root@),
                    base@,
                    optional_text(request.overlay_root),
                    if request.overlay_root is Some {
                        overlay@
                    } else {
                        Seq::empty()
                    },
                    path,
                ),
            },
{
    let builder = match request.source {
        PresetSnapshotSource::Embedded(files) => embedded_snapshot_builder(&files),
        PresetSnapshotSource::External(root) => {
            let empty = PresetSnapshot::builder(PresetSourceKind::External);
            proof {
                assert(empty@ =~= Seq::<PresetFileView>::empty());
            }
            add_base(empty.base_root(root), &base)
        },
    };
    let ghost before = builder@;
    match request.overlay_root {
        Some(root) => {
            let result = add_overlay(builder.overlay_root(root), &overlay);
            result.build()
        },
        None => builder.build(),
    }
}

/// What is done with an entry of a preset directory.
#[derive(Clone, Copy, Debug, PartialEq, Eq, Structural)]
pub enum TreeStep {
    Descend,
    Read,
    Skip,
}

/// What is done with an entry: directories are entered, but for `node_modules`,
/// files are read, links are passed over.
pub open spec fn tree_step(kind: FileKind, path: Seq<char>) -> TreeStep {
    let parts = path_components(path);
    match kind {
        FileKind::Directory => if parts.len() > 0 && parts.last() == "node_modules"@ {
            TreeStep::Skip
        } else {
            TreeStep::Descend
        },
        FileKind::File => TreeStep::Read,
        FileKind::Symlink => TreeStep::Skip,
    }
}

/// What is done with the entry.
pub fn decide_tree_step(kind: FileKind, path: &str) -> (step: TreeStep)
    ensures
        step == tree_step(kind, path@),
{
    match kind {
        FileKind::Directory => {
            let parts = components(path);
            proof {
                assert(texts(parts@).len() == parts@.len());
                if parts@.len() > 0 {
                    assert(texts(parts@).last() == parts@.last()@);
                }
            }
            if parts.len() > 0 && same_text(parts[parts.len() - 1].as_str(), "node_modules") {
                TreeStep::Skip
            } else {
                TreeStep::Descend
            }
        },
        FileKind::File => TreeStep::Read,
        FileKind::Symlink => TreeStep::Skip,
    }
}

/// The preset path of a file under a root; none where it lies elsewhere.
pub fn preset_path(path: &str, root: &str) -> (logical: Option<String>)
    ensures
        logical is Some <==> is_under(path@, root@),
        logical is Some ==> logical->0@ == logical_text(components_below(path@, root@)),
{
    match strip_root(path, root) {
        Some(rest) => {
            proof {
                reveal_strlit("/");
                assert("/"@ =~= seq!['/']);
            }
            Some(join_texts(rest.as_slice(), "/"))
        },
        None => None,
    }
}

} // verus!
