//! The preset files that one command works on.
//!
//! A snapshot is taken once and does not change: which file stands for a path,
//! the one of the base or the one of the overlay, is settled for the whole
//! command.

use vstd::prelude::*;
use vstd::string::*;

use crate::app_metadata_types::CategoryToml;
use crate::content::content_hash;
use crate::path::{join, path_join};
use crate::plan::{
    observation_bytes, observation_views, optional_text, DigestView, SnapshotDigestV1,
};
use crate::sorted::{
    is_less, is_sorted_set, lemma_text_irreflexive, lemma_text_total, lemma_text_transitive,
    text_less,
};
use crate::text::{cut_at, same_text, split_once};

verus! {

#[derive(Clone, Copy, Debug, PartialEq, Eq, Structural)]
pub enum PresetSourceKind {
    Embedded,
    External,
}

/// Where a preset file comes from.
#[derive(Clone, Debug)]
pub struct PresetOrigin {
    pub source_kind: PresetSourceKind,
    pub physical_path: Option<String>,
    pub category_root: Option<String>,
}

/// One preset file. `metadata` holds what the file says where it is the metadata
/// of a category and could be read.
#[derive(Clone, Debug)]
pub struct PresetFile {
    pub path: String,
    pub bytes: Vec<u8>,
    pub origin: PresetOrigin,
    pub is_overlay: bool,
    pub metadata: Option<CategoryToml>,
}

/// A preset file by the values it holds.
pub ghost struct PresetFileView {
    pub path: Seq<char>,
    pub bytes: Seq<u8>,
    pub source_kind: PresetSourceKind,
    pub physical_path: Option<Seq<char>>,
    pub category_root: Option<Seq<char>>,
    pub is_overlay: bool,
    pub metadata: Option<CategoryToml>,
}

impl View for PresetFile {
    type V = PresetFileView;

    open spec fn view(&self) -> PresetFileView {
        PresetFileView {
            path: self.path@,
            bytes: self.bytes@,
            source_kind: self.origin.source_kind,
            physical_path: optional_text(self.origin.physical_path),
            category_root: optional_text(self.origin.category_root),
            is_overlay: self.is_overlay,
            metadata: self.metadata,
        }
    }
}

/// The views of a list of preset files.
pub open spec fn preset_views(files: Seq<PresetFile>) -> Seq<PresetFileView> {
    files.map_values(|file: PresetFile| file@)
}

/// The paths of a list of preset files.
pub open spec fn preset_paths(files: Seq<PresetFileView>) -> Seq<Seq<char>> {
    files.map_values(|file: PresetFileView| file.path)
}

/// The place of a path.
pub open spec fn preset_place(files: Seq<PresetFileView>, path: Seq<char>) -> Option<int>
    decreases files.len(),
{
    if files.len() == 0 {
        None
    } else {
        match preset_place(files.drop_last(), path) {
            Some(place) => Some(place),
            None => if files.last().path == path {
                Some(files.len() - 1)
            } else {
                None
            },
        }
    }
}

/// The file that stands for a path.
pub open spec fn preset_file(files: Seq<PresetFileView>, path: Seq<char>) -> Option<
    PresetFileView,
> {
    match preset_place(files, path) {
        Some(place) => Some(files[place]),
        None => None,
    }
}

pub proof fn lemma_preset_place(files: Seq<PresetFileView>, path: Seq<char>)
    ensures
        match preset_place(files, path) {
            Some(place) => 0 <= place < files.len() && files[place].path == path && forall|j: int|
                0 <= j < place ==> (#[trigger] files[j]).path != path,
            None => forall|j: int| 0 <= j < files.len() ==> (#[trigger] files[j]).path != path,
        },
    decreases files.len(),
{
    if files.len() > 0 {
        lemma_preset_place(files.drop_last(), path);
        assert forall|j: int| 0 <= j < files.len() - 1 implies files.drop_last()[j]
            == files[j] by {}
    }
}

/// The preset files of one command, ordered by path.
#[derive(Clone, Debug)]
pub struct PresetSnapshot {
    pub files: Vec<PresetFile>,
}

impl View for PresetSnapshot {
    type V = Seq<PresetFileView>;

    open spec fn view(&self) -> Seq<PresetFileView> {
        preset_views(self.files@)
    }
}

fn position(files: &Vec<PresetFile>, path: &str) -> (place: Option<usize>)
    ensures
        match place {
            Some(place) => preset_place(preset_views(files@), path@) == Some(place as int) && place
                < files@.len(),
            None => preset_place(preset_views(files@), path@) is None,
        },
{
    let ghost all = preset_views(files@);
    proof {
        lemma_preset_place(all, path@);
    }
    let mut i: usize = 0;
    while i < files.len()
        invariant
            i <= files.len(),
            all == preset_views(files@),
            forall|j: int| 0 <= j < i ==> (#[trigger] all[j]).path != path@,
        decreases files.len() - i,
    {
        proof {
            assert(all[i as int] == files@[i as int]@);
        }
        if same_text(files[i].path.as_str(), path) {
            proof {
                lemma_preset_place(all, path@);
            }
            return Some(i);
        }
        i += 1;
    }
    proof {
        lemma_preset_place(all, path@);
    }
    None
}

impl PresetSnapshot {
    /// The paths are in order and none occurs twice.
    pub open spec fn well_formed(&self) -> bool {
        is_sorted_set(preset_paths(self@))
    }

    /// The file that stands for the path.
    pub fn file(&self, path: &str) -> (file: Option<&PresetFile>)
        ensures
            match file {
                Some(file) => preset_file(self@, path@) == Some(file@),
                None => preset_file(self@, path@) is None,
            },
    {
        match position(&self.files, path) {
            Some(place) => {
                assert(self@[place as int] == self.files@[place as int]@);
                Some(&self.files[place])
            },
            None => None,
        }
    }

    /// The content of the file that stands for the path.
    pub fn get(&self, path: &str) -> (bytes: Option<&[u8]>)
        ensures
            match bytes {
                Some(bytes) => preset_file(self@, path@) is Some && preset_file(
                    self@,
                    path@,
                )->0.bytes == bytes@,
                None => preset_file(self@, path@) is None,
            },
    {
        match self.file(path) {
            Some(file) => Some(file.bytes.as_slice()),
            None => None,
        }
    }

    /// Where the file that stands for the path comes from.
    pub fn origin(&self, path: &str) -> (origin: Option<&PresetOrigin>)
        ensures
            match origin {
                Some(origin) => {
                    &&& preset_file(self@, path@) is Some
                    &&& preset_file(self@, path@)->0.source_kind == origin.source_kind
                    &&& preset_file(self@, path@)->0.physical_path == optional_text(
                        origin.physical_path,
                    )
                    &&& preset_file(self@, path@)->0.category_root == optional_text(
                        origin.category_root,
                    )
                },
                None => preset_file(self@, path@) is None,
            },
    {
        match self.file(path) {
            Some(file) => Some(&file.origin),
            None => None,
        }
    }

    /// The identity of the files: each path with its content.
    pub fn digest_v1(&self) -> (digest: SnapshotDigestV1)
        ensures
            digest@ == (DigestView {
                domain: "preset"@,
                value: content_hash(observation_bytes(preset_observations(self@))),
            }),
    {
        let mut builder = SnapshotDigestV1::builder("preset");
        let ghost all = preset_observations(self@);
        let mut i: usize = 0;
        proof {
            assert(observation_views(builder.observations@) =~= all.take(0));
        }
        while i < self.files.len()
            invariant
                i <= self.files.len(),
                all == preset_observations(self@),
                builder.domain@ == "preset"@,
                observation_views(builder.observations@) == all.take(i as int),
            decreases self.files.len() - i,
        {
            builder.add_observation(self.files[i].path.as_str(), self.files[i].bytes.as_slice());
            proof {
                assert(all[i as int] == (
                    self.files@[i as int].path@,
                    self.files@[i as int].bytes@,
                ));
                assert(all.take(i as int + 1) =~= all.take(i as int).push(all[i as int]));
            }
            i += 1;
        }
        proof {
            assert(all.take(all.len() as int) =~= all);
        }
        builder.finish()
    }

    pub fn builder(source_kind: PresetSourceKind) -> (builder: PresetSnapshotBuilder)
        ensures
            builder.well_formed(),
            builder.source_kind == source_kind,
            builder.base_root is None,
            builder.overlay_root is None,
            builder@.len() == 0,
    {
        PresetSnapshotBuilder {
            source_kind,
            base_root: None,
            overlay_root: None,
            files: Vec::new(),
        }
    }
}

/// Each path with its content.
pub open spec fn preset_observations(files: Seq<PresetFileView>) -> Seq<(Seq<char>, Seq<u8>)> {
    files.map_values(|file: PresetFileView| (file.path, file.bytes))
}

/// Collects preset files.
#[derive(Clone, Debug)]
pub struct PresetSnapshotBuilder {
    pub source_kind: PresetSourceKind,
    pub base_root: Option<String>,
    pub overlay_root: Option<String>,
    pub files: Vec<PresetFile>,
}

impl View for PresetSnapshotBuilder {
    type V = Seq<PresetFileView>;

    open spec fn view(&self) -> Seq<PresetFileView> {
        preset_views(self.files@)
    }
}

/// The path of a preset file under a root.
pub open spec fn physical_text(root: Option<Seq<char>>, path: Seq<char>) -> Option<Seq<char>> {
    match root {
        Some(root) => Some(path_join(root, path)),
        None => None,
    }
}

fn physical_path(root: &Option<String>, path: &str) -> (physical: Option<String>)
    ensures
        optional_text(physical) == physical_text(optional_text(*root), path@),
{
    match root {
        Some(root) => Some(join(root.as_str(), path)),
        None => None,
    }
}

/// The directory under a root of the category that a preset path belongs to.
pub open spec fn category_root_text(root: Option<Seq<char>>, path: Seq<char>) -> Option<
    Seq<char>,
> {
    match (root, cut_at(path, '/')) {
        (Some(root), Some((kind, rest))) => match cut_at(rest, '/') {
            Some((category, _)) => Some(path_join(path_join(root, kind), category)),
            None => None,
        },
        _ => None,
    }
}

fn category_root(root: &Option<String>, path: &str) -> (directory: Option<String>)
    ensures
        optional_text(directory) == category_root_text(optional_text(*root), path@),
{
    let root = match root {
        Some(root) => root,
        None => return None,
    };
    match split_once(path, '/') {
        Some((kind, rest)) => match split_once(rest.as_str(), '/') {
            Some((category, _)) => {
                let parent = join(root.as_str(), kind.as_str());
                Some(join(parent.as_str(), category.as_str()))
            },
            None => None,
        },
        None => None,
    }
}

/// Whether `after` is `before` with `file` standing for its path.
pub open spec fn is_placed(
    before: Seq<PresetFileView>,
    after: Seq<PresetFileView>,
    file: PresetFileView,
) -> bool {
    forall|path: Seq<char>| #[trigger]
        preset_file(after, path) == if path == file.path {
            Some(file)
        } else {
            preset_file(before, path)
        }
}

proof fn lemma_place_unique(files: Seq<PresetFileView>, i: int)
    requires
        is_sorted_set(preset_paths(files)),
        0 <= i < files.len(),
    ensures
        preset_place(files, files[i].path) == Some(i),
{
    lemma_preset_place(files, files[i].path);
    let place = preset_place(files, files[i].path)->0;
    let paths = preset_paths(files);
    if place < i {
        assert(text_less(paths[place], paths[i]));
        lemma_text_irreflexive(files[i].path);
    } else if place > i {
        assert(text_less(paths[i], paths[place]));
        lemma_text_irreflexive(files[i].path);
    }
}

impl PresetSnapshotBuilder {
    pub open spec fn well_formed(&self) -> bool {
        is_sorted_set(preset_paths(self@))
    }

    fn place(&mut self, file: PresetFile)
        requires
            old(self).well_formed(),
        ensures
            final(self).well_formed(),
            final(self).source_kind == old(self).source_kind,
            final(self).base_root == old(self).base_root,
            final(self).overlay_root == old(self).overlay_root,
            is_placed(old(self)@, final(self)@, file@),
    {
        let ghost before = self@;
        let ghost added = file@;
        let ghost paths = preset_paths(before);
        let mut i: usize = 0;
        while i < self.files.len() && is_less(self.files[i].path.as_str(), file.path.as_str())
            invariant
                i <= self.files.len(),
                self@ == before,
                self.source_kind == old(self).source_kind,
                self.base_root == old(self).base_root,
                self.overlay_root == old(self).overlay_root,
                added == file@,
                forall|j: int| 0 <= j < i ==> text_less((#[trigger] before[j]).path, added.path),
            decreases self.files.len() - i,
        {
            proof {
                assert(before[i as int] == self.files@[i as int]@);
            }
            i += 1;
        }
        if i < self.files.len() && same_text(self.files[i].path.as_str(), file.path.as_str()) {
            proof {
                assert(before[i as int] == self.files@[i as int]@);
            }
            self.files.set(i, file);
            proof {
                let after = self@;
                assert(after =~= before.update(i as int, added));
                assert(preset_paths(after) =~= preset_paths(before));
                assert forall|path: Seq<char>| #[trigger] preset_file(after, path) == if path
                    == added.path {
                    Some(added)
                } else {
                    preset_file(before, path)
                } by {
                    lemma_preset_place(after, path);
                    lemma_preset_place(before, path);
                    if path == added.path {
                        lemma_place_unique(after, i as int);
                    } else {
                        match preset_place(before, path) {
                            Some(place) => {
                                assert(place != i);
                                assert(after[place] == before[place]);
                                lemma_place_unique(after, place);
                            },
                            None => {
                                if let Some(place) = preset_place(after, path) {
                                    assert(place != i);
                                    assert(after[place] == before[place]);
                                }
                            },
                        }
                    }
                }
            }
            return ;
        }
        proof {
            if i < self.files.len() {
                assert(before[i as int] == self.files@[i as int]@);
                lemma_text_total(before[i as int].path, added.path);
            }
        }
        self.files.insert(i, file);
        proof {
            let after = self@;
            assert(after =~= before.insert(i as int, added));
            let after_paths = preset_paths(after);
            assert forall|a: int, b: int| 0 <= a < b < after_paths.len() implies text_less(
                #[trigger] after_paths[a],
                #[trigger] after_paths[b],
            ) by {
                if b == i {
                    assert(after[a] == before[a]);
                } else if a == i {
                    assert(after[b] == before[b - 1]);
                    if b - 1 > i {
                        assert(text_less(paths[i as int], paths[b - 1]));
                        lemma_text_transitive(added.path, before[i as int].path, before[b
                            - 1].path);
                    }
                } else {
                    let x = if a < i {
                        a
                    } else {
                        a - 1
                    };
                    let y = if b < i {
                        b
                    } else {
                        b - 1
                    };
                    assert(after[a] == before[x]);
                    assert(after[b] == before[y]);
                    assert(text_less(paths[x], paths[y]));
                }
            }
            assert forall|path: Seq<char>| #[trigger] preset_file(after, path) == if path
                == added.path {
                Some(added)
            } else {
                preset_file(before, path)
            } by {
                lemma_preset_place(after, path);
                lemma_preset_place(before, path);
                if path == added.path {
                    lemma_place_unique(after, i as int);
                } else {
                    match preset_place(before, path) {
                        Some(place) => {
                            let moved = if place < i {
                                place
                            } else {
                                place + 1
                            };
                            assert(after[moved] == before[place]);
                            lemma_place_unique(after, moved);
                        },
                        None => {
                            if let Some(place) = preset_place(after, path) {
                                assert(place != i);
                                let earlier = if place < i {
                                    place
                                } else {
                                    place - 1
                                };
                                assert(after[place] == before[earlier]);
                            }
                        },
                    }
                }
            }
        }
    }

    /// The directory that the base files stand under.
    pub fn base_root(self, root: String) -> (builder: PresetSnapshotBuilder)
        requires
            self.well_formed(),
        ensures
            builder.well_formed(),
            builder.source_kind == self.source_kind,
            builder.base_root == Some(root),
            builder.overlay_root == self.overlay_root,
            builder@ == self@,
    {
        PresetSnapshotBuilder {
            source_kind: self.source_kind,
            base_root: Some(root),
            overlay_root: self.overlay_root,
            files: self.files,
        }
    }

    /// The directory that the overlay files stand under.
    pub fn overlay_root(self, root: String) -> (builder: PresetSnapshotBuilder)
        requires
            self.well_formed(),
        ensures
            builder.well_formed(),
            builder.source_kind == self.source_kind,
            builder.base_root == self.base_root,
            builder.overlay_root == Some(root),
            builder@ == self@,
    {
        PresetSnapshotBuilder {
            source_kind: self.source_kind,
            base_root: self.base_root,
            overlay_root: Some(root),
            files: self.files,
        }
    }

    /// A file of the base stands for its path.
    pub fn file(self, path: &str, bytes: Vec<u8>) -> (builder: PresetSnapshotBuilder)
        requires
            self.well_formed(),
        ensures
            builder.well_formed(),
            builder.source_kind == self.source_kind,
            builder.base_root == self.base_root,
            builder.overlay_root == self.overlay_root,
            is_placed(
                self@,
                builder@,
                base_file(self.source_kind, optional_text(self.base_root), path@, bytes@),
            ),
    {
        let mut builder = self;
        let physical_path = physical_path(&builder.base_root, path);
        let category_root = category_root(&builder.base_root, path);
        let file = PresetFile {
            path: path.to_owned(),
            bytes,
            origin: PresetOrigin {
                source_kind: builder.source_kind,
                physical_path,
                category_root,
            },
            is_overlay: false,
            metadata: None,
        };
        builder.place(file);
        builder
    }

    /// A file of the overlay stands for its path, also where the base has one.
    pub fn overlay_file(self, path: &str, bytes: Vec<u8>) -> (builder: PresetSnapshotBuilder)
        requires
            self.well_formed(),
        ensures
            builder.well_formed(),
            builder.source_kind == self.source_kind,
            builder.base_root == self.base_root,
            builder.overlay_root == self.overlay_root,
            is_placed(
                self@,
                builder@,
                overlaid_file(optional_text(self.overlay_root), path@, bytes@),
            ),
    {
        let mut builder = self;
        let physical_path = physical_path(&builder.overlay_root, path);
        let category_root = category_root(&builder.overlay_root, path);
        let file = PresetFile {
            path: path.to_owned(),
            bytes,
            origin: PresetOrigin {
                source_kind: PresetSourceKind::External,
                physical_path,
                category_root,
            },
            is_overlay: true,
            metadata: None,
        };
        builder.place(file);
        builder
    }

    /// Attaches what the metadata file at a path says; nothing changes where there
    /// is no such file.
    pub fn metadata(self, path: &str, metadata: CategoryToml) -> (builder: PresetSnapshotBuilder)
        requires
            self.well_formed(),
        ensures
            builder.well_formed(),
            builder.source_kind == self.source_kind,
            builder.base_root == self.base_root,
            builder.overlay_root == self.overlay_root,
            match preset_file(self@, path@) {
                Some(file) => is_placed(
                    self@,
                    builder@,
                    PresetFileView { metadata: Some(metadata), ..file },
                ),
                None => builder@ == self@,
            },
    {
        let mut builder = self;
        let ghost before = builder@;
        match position(&builder.files, path) {
            Some(place) => {
                proof {
                    lemma_preset_place(before, path@);
                }
                let old_file = &builder.files[place];
                let mut bytes: Vec<u8> = Vec::new();
                bytes.extend_from_slice(old_file.bytes.as_slice());
                proof {
                    assert(bytes@ =~= old_file.bytes@);
                    assert(before[place as int] == old_file@);
                }
                let file = PresetFile {
                    path: old_file.path.clone(),
                    bytes,
                    origin: PresetOrigin {
                        source_kind: old_file.origin.source_kind,
                        physical_path: match &old_file.origin.physical_path {
                            Some(path) => Some(path.clone()),
                            None => None,
                        },
                        category_root: match &old_file.origin.category_root {
                            Some(path) => Some(path.clone()),
                            None => None,
                        },
                    },
                    is_overlay: old_file.is_overlay,
                    metadata: Some(metadata),
                };
                builder.place(file);
            },
            None => {},
        }
        builder
    }

    /// The snapshot of what was collected.
    pub fn build(self) -> (snapshot: PresetSnapshot)
        requires
            self.well_formed(),
        ensures
            snapshot.well_formed(),
            snapshot@ == self@,
    {
        PresetSnapshot { files: self.files }
    }
}

/// A file of the base.
pub open spec fn base_file(
    source_kind: PresetSourceKind,
    root: Option<Seq<char>>,
    path: Seq<char>,
    bytes: Seq<u8>,
) -> PresetFileView {
    PresetFileView {
        path,
        bytes,
        source_kind,
        physical_path: physical_text(root, path),
        category_root: category_root_text(root, path),
        is_overlay: false,
        metadata: None,
    }
}

/// A file of the overlay.
pub open spec fn overlaid_file(
    root: Option<Seq<char>>,
    path: Seq<char>,
    bytes: Seq<u8>,
) -> PresetFileView {
    PresetFileView {
        path,
        bytes,
        source_kind: PresetSourceKind::External,
        physical_path: physical_text(root, path),
        category_root: category_root_text(root, path),
        is_overlay: true,
        metadata: None,
    }
}

/// Where the overlay has a file it stands for its path, and everywhere else the
/// base does.
pub proof fn law_overlay_wins(
    base: Seq<PresetFileView>,
    after: Seq<PresetFileView>,
    file: PresetFileView,
    other: Seq<char>,
)
    requires
        is_placed(base, after, file),
    ensures
        preset_file(after, file.path) == Some(file),
        other != file.path ==> preset_file(after, other) == preset_file(base, other),
{
}

} // verus!
