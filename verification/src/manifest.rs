//! Receipts: what this library owns on a host.

use vstd::prelude::*;
use vstd::string::*;

use crate::path::{paths_match, same_path};
use crate::plan::optional_text;
use crate::text::{copy_texts, same_text, same_texts, texts};

verus! {

/// The receipt schema that this library writes and reads.
pub const APP_MANIFEST_SCHEMA_VERSION: u32 = 1;

/// How the content of an App file gets to its destination.
#[derive(Clone, Debug)]
pub enum AppInstallStrategy {
    /// The whole file is written.
    Copy,
    /// Only the named top-level members of a JSON object are written.
    JsonMerge { managed_keys: Vec<String> },
}

/// A strategy by the characters it holds: the managed keys, or none for a copy.
pub open spec fn strategy_keys(strategy: AppInstallStrategy) -> Option<Seq<Seq<char>>> {
    match strategy {
        AppInstallStrategy::Copy => None,
        AppInstallStrategy::JsonMerge { managed_keys } => Some(texts(managed_keys@)),
    }
}

impl AppInstallStrategy {
    pub fn is_copy(&self) -> (result: bool)
        ensures
            result == (strategy_keys(*self) is None),
    {
        match self {
            AppInstallStrategy::Copy => true,
            AppInstallStrategy::JsonMerge { .. } => false,
        }
    }

    /// Whether the strategy merges exactly these keys.
    pub fn merges(&self, keys: &Vec<String>) -> (result: bool)
        ensures
            result == (strategy_keys(*self) == Some(texts(keys@))),
    {
        match self {
            AppInstallStrategy::Copy => false,
            AppInstallStrategy::JsonMerge { managed_keys } => same_texts(
                managed_keys.as_slice(),
                keys.as_slice(),
            ),
        }
    }

    /// A copy of the strategy.
    pub fn copied(&self) -> (copy: AppInstallStrategy)
        ensures
            strategy_keys(copy) == strategy_keys(*self),
    {
        match self {
            AppInstallStrategy::Copy => AppInstallStrategy::Copy,
            AppInstallStrategy::JsonMerge { managed_keys } => AppInstallStrategy::JsonMerge {
                managed_keys: copy_texts(managed_keys.as_slice()),
            },
        }
    }
}

/// One receipt: a destination, what was put there, and from which source.
#[derive(Clone, Debug)]
pub struct AppEntry {
    pub source: String,
    pub destination: String,
    pub backup: Option<String>,
    pub content_hash: u64,
    pub install_strategy: AppInstallStrategy,
    pub uses_env: bool,
    pub requires_admin: bool,
}

/// A receipt by the values it holds.
pub ghost struct AppEntryView {
    pub source: Seq<char>,
    pub destination: Seq<char>,
    pub backup: Option<Seq<char>>,
    pub content_hash: u64,
    pub managed_keys: Option<Seq<Seq<char>>>,
    pub uses_env: bool,
    pub requires_admin: bool,
}

impl View for AppEntry {
    type V = AppEntryView;

    open spec fn view(&self) -> AppEntryView {
        AppEntryView {
            source: self.source@,
            destination: self.destination@,
            backup: optional_text(self.backup),
            content_hash: self.content_hash,
            managed_keys: strategy_keys(self.install_strategy),
            uses_env: self.uses_env,
            requires_admin: self.requires_admin,
        }
    }
}

impl AppEntry {
    /// A copy of the receipt.
    pub fn copied(&self) -> (copy: AppEntry)
        ensures
            copy@ == self@,
    {
        AppEntry {
            source: self.source.clone(),
            destination: self.destination.clone(),
            backup: match &self.backup {
                Some(backup) => Some(backup.clone()),
                None => None,
            },
            content_hash: self.content_hash,
            install_strategy: self.install_strategy.copied(),
            uses_env: self.uses_env,
            requires_admin: self.requires_admin,
        }
    }
}

/// The views of a list of receipts.
pub open spec fn entry_views(entries: Seq<AppEntry>) -> Seq<AppEntryView> {
    entries.map_values(|entry: AppEntry| entry@)
}

/// Where the first receipt of a source stands.
pub open spec fn source_index(entries: Seq<AppEntryView>, source: Seq<char>) -> Option<int>
    decreases entries.len(),
{
    if entries.len() == 0 {
        None
    } else {
        match source_index(entries.drop_last(), source) {
            Some(index) => Some(index),
            None => if entries.last().source == source {
                Some(entries.len() - 1)
            } else {
                None
            },
        }
    }
}

/// Where the first receipt for a destination stands.
pub open spec fn dest_index(entries: Seq<AppEntryView>, destination: Seq<char>) -> Option<int>
    decreases entries.len(),
{
    if entries.len() == 0 {
        None
    } else {
        match dest_index(entries.drop_last(), destination) {
            Some(index) => Some(index),
            None => if same_path(entries.last().destination, destination) {
                Some(entries.len() - 1)
            } else {
                None
            },
        }
    }
}

/// The first receipt of a source.
pub open spec fn entry_of_source(entries: Seq<AppEntryView>, source: Seq<char>) -> Option<
    AppEntryView,
> {
    match source_index(entries, source) {
        Some(index) => Some(entries[index]),
        None => None,
    }
}

/// Whether some receipt owns the destination.
pub open spec fn owns(entries: Seq<AppEntryView>, destination: Seq<char>) -> bool {
    exists|i: int|
        0 <= i < entries.len() && same_path((#[trigger] entries[i]).destination, destination)
}

/// `entries` with `entry` in place of the first receipt for its destination, or
/// at the end where there is none.
pub open spec fn upserted(entries: Seq<AppEntryView>, entry: AppEntryView) -> Seq<AppEntryView> {
    match dest_index(entries, entry.destination) {
        Some(index) => entries.update(index, entry),
        None => entries.push(entry),
    }
}

/// The first receipt of a source is where nothing before it is of that source.
pub proof fn lemma_source_index(entries: Seq<AppEntryView>, source: Seq<char>)
    ensures
        match source_index(entries, source) {
            Some(index) => 0 <= index < entries.len() && entries[index].source == source && forall|
                j: int,
            |
                0 <= j < index ==> (#[trigger] entries[j]).source != source,
            None => forall|j: int|
                0 <= j < entries.len() ==> (#[trigger] entries[j]).source != source,
        },
    decreases entries.len(),
{
    if entries.len() > 0 {
        lemma_source_index(entries.drop_last(), source);
        assert forall|j: int| 0 <= j < entries.len() - 1 implies entries.drop_last()[j]
            == entries[j] by {}
    }
}

/// The first receipt for a destination is where nothing before it is for it.
pub proof fn lemma_dest_index(entries: Seq<AppEntryView>, destination: Seq<char>)
    ensures
        match dest_index(entries, destination) {
            Some(index) => 0 <= index < entries.len() && same_path(
                entries[index].destination,
                destination,
            ) && forall|j: int|
                0 <= j < index ==> !same_path((#[trigger] entries[j]).destination, destination),
            None => forall|j: int|
                0 <= j < entries.len() ==> !same_path(
                    (#[trigger] entries[j]).destination,
                    destination,
                ),
        },
        dest_index(entries, destination) is Some <==> owns(entries, destination),
    decreases entries.len(),
{
    if entries.len() > 0 {
        lemma_dest_index(entries.drop_last(), destination);
        assert forall|j: int| 0 <= j < entries.len() - 1 implies entries.drop_last()[j]
            == entries[j] by {}
        match dest_index(entries, destination) {
            Some(index) => {
                assert(same_path(entries[index].destination, destination));
            },
            None => {},
        }
    }
}

/// The receipts of the Apps that are installed.
#[derive(Clone, Debug)]
pub struct AppManifest {
    pub schema_version: u32,
    pub entries: Vec<AppEntry>,
}

impl View for AppManifest {
    type V = Seq<AppEntryView>;

    open spec fn view(&self) -> Seq<AppEntryView> {
        entry_views(self.entries@)
    }
}

/// The manifest on disk was written under a schema this library does not know.
#[derive(Clone, Copy, Debug, PartialEq, Eq, Structural)]
pub struct UnsupportedManifestSchema {
    pub version: u32,
}

impl Default for AppManifest {
    fn default() -> (manifest: AppManifest)
        ensures
            manifest.schema_version == 0,
            manifest.entries@.len() == 0,
    {
        AppManifest { schema_version: 0, entries: Vec::new() }
    }
}

/// Whether receipts of this version can be read.
pub open spec fn is_supported(version: u32) -> bool {
    version == 0 || version == APP_MANIFEST_SCHEMA_VERSION
}

impl AppManifest {
    /// Accepts a manifest that was read: one without a schema version gets the
    /// current one, one of another version is refused.
    pub fn accept(self) -> (result: Result<AppManifest, UnsupportedManifestSchema>)
        ensures
            result is Ok <==> is_supported(self.schema_version),
            result is Ok ==> result->Ok_0.schema_version == APP_MANIFEST_SCHEMA_VERSION
                && result->Ok_0.entries == self.entries,
            result is Err ==> result->Err_0.version == self.schema_version,
    {
        if self.schema_version == 0 || self.schema_version == APP_MANIFEST_SCHEMA_VERSION {
            Ok(AppManifest { schema_version: APP_MANIFEST_SCHEMA_VERSION, entries: self.entries })
        } else {
            Err(UnsupportedManifestSchema { version: self.schema_version })
        }
    }

    /// The first receipt of the source.
    pub fn find_by_source(&self, source: &str) -> (found: Option<&AppEntry>)
        ensures
            found is Some <==> entry_of_source(self@, source@) is Some,
            found is Some ==> entry_of_source(self@, source@) == Some(found->0@),
    {
        proof {
            lemma_source_index(self@, source@);
        }
        let mut i: usize = 0;
        while i < self.entries.len()
            invariant
                i <= self.entries.len(),
                forall|j: int| 0 <= j < i ==> (#[trigger] self@[j]).source != source@,
            decreases self.entries.len() - i,
        {
            if same_text(self.entries[i].source.as_str(), source) {
                proof {
                    assert(self@[i as int] == self.entries@[i as int]@);
                    lemma_source_index(self@, source@);
                }
                return Some(&self.entries[i]);
            }
            proof {
                assert(self@[i as int] == self.entries@[i as int]@);
            }
            i += 1;
        }
        proof {
            lemma_source_index(self@, source@);
        }
        None
    }

    /// The place of the first receipt for the destination.
    pub fn position_of_dest(&self, destination: &str) -> (found: Option<usize>)
        ensures
            found is Some <==> dest_index(self@, destination@) is Some,
            found is Some ==> dest_index(self@, destination@) == Some(found->0 as int) && found->0
                < self.entries@.len(),
            found is Some <==> owns(self@, destination@),
    {
        proof {
            lemma_dest_index(self@, destination@);
        }
        let mut i: usize = 0;
        while i < self.entries.len()
            invariant
                i <= self.entries.len(),
                forall|j: int|
                    0 <= j < i ==> !same_path((#[trigger] self@[j]).destination, destination@),
            decreases self.entries.len() - i,
        {
            proof {
                assert(self@[i as int] == self.entries@[i as int]@);
            }
            if paths_match(self.entries[i].destination.as_str(), destination) {
                proof {
                    lemma_dest_index(self@, destination@);
                }
                return Some(i);
            }
            i += 1;
        }
        proof {
            lemma_dest_index(self@, destination@);
        }
        None
    }

    /// The first receipt for the destination.
    pub fn find_by_dest(&self, destination: &str) -> (found: Option<&AppEntry>)
        ensures
            found is Some <==> owns(self@, destination@),
            found is Some ==> Some(found->0@) == match dest_index(self@, destination@) {
                Some(index) => Some(self@[index]),
                None => None,
            },
    {
        match self.position_of_dest(destination) {
            Some(i) => {
                assert(self@[i as int] == self.entries@[i as int]@);
                Some(&self.entries[i])
            },
            None => None,
        }
    }

    /// Whether some receipt owns the destination.
    pub fn owns_destination(&self, destination: &str) -> (result: bool)
        ensures
            result == owns(self@, destination@),
    {
        self.position_of_dest(destination).is_some()
    }

    /// Puts a receipt in: in place of the one for its destination, or at the end.
    pub fn upsert(&mut self, entry: AppEntry)
        ensures
            final(self)@ == upserted(old(self)@, entry@),
            final(self).schema_version == old(self).schema_version,
    {
        let ghost before = self.entries@;
        match self.position_of_dest(entry.destination.as_str()) {
            Some(i) => {
                self.entries.set(i, entry);
                proof {
                    assert(self@ =~= entry_views(before).update(i as int, entry@));
                }
            },
            None => {
                self.entries.push(entry);
                proof {
                    assert(self@ =~= entry_views(before).push(entry@));
                }
            },
        }
    }

    /// Takes every receipt for the destination out, and keeps the others in order.
    pub fn remove_by_dest(&mut self, destination: &str)
        ensures
            final(self)@ == without_dest(old(self)@, destination@),
            final(self).schema_version == old(self).schema_version,
    {
        let mut kept: Vec<AppEntry> = Vec::new();
        let mut i: usize = 0;
        proof {
            assert(self@.take(0) =~= Seq::<AppEntryView>::empty());
            assert(entry_views(kept@) =~= Seq::<AppEntryView>::empty());
        }
        while i < self.entries.len()
            invariant
                *self == *old(self),
                i <= self.entries.len(),
                entry_views(kept@) == without_dest(self@.take(i as int), destination@),
            decreases self.entries.len() - i,
        {
            let ghost before = kept@;
            proof {
                assert(self@.take(i as int + 1).drop_last() =~= self@.take(i as int));
                assert(self@.take(i as int + 1).last() == self.entries@[i as int]@);
            }
            if !paths_match(self.entries[i].destination.as_str(), destination) {
                kept.push(self.entries[i].copied());
                proof {
                    assert(entry_views(kept@) =~= entry_views(before).push(
                        self.entries@[i as int]@,
                    ));
                }
            }
            i += 1;
        }
        proof {
            assert(self@.take(self@.len() as int) =~= self@);
        }
        self.entries = kept;
    }
}

/// The receipts that are not for the destination, in order.
pub open spec fn without_dest(entries: Seq<AppEntryView>, destination: Seq<char>) -> Seq<
    AppEntryView,
>
    decreases entries.len(),
{
    if entries.len() == 0 {
        Seq::empty()
    } else {
        let before = without_dest(entries.drop_last(), destination);
        if same_path(entries.last().destination, destination) {
            before
        } else {
            before.push(entries.last())
        }
    }
}

/// A receipt that was put in is the one found for its destination, and a
/// destination that is not the same path is owned exactly as before.
pub proof fn law_upsert_is_found(
    entries: Seq<AppEntryView>,
    entry: AppEntryView,
    other: Seq<char>,
)
    ensures
        ({
            let after = upserted(entries, entry);
            let index = dest_index(after, entry.destination);
            index is Some && after[index->0] == entry
        }),
        !same_path(entry.destination, other) ==> owns(upserted(entries, entry), other) == owns(
            entries,
            other,
        ),
{
    let after = upserted(entries, entry);
    lemma_dest_index(entries, entry.destination);
    lemma_dest_index(after, entry.destination);
    match dest_index(entries, entry.destination) {
        Some(index) => {
            assert(after[index] == entry);
            assert forall|j: int| 0 <= j < index implies !same_path(
                (#[trigger] after[j]).destination,
                entry.destination,
            ) by {
                assert(after[j] == entries[j]);
            }
        },
        None => {
            assert(after[entries.len() as int] == entry);
            assert forall|j: int| 0 <= j < entries.len() implies !same_path(
                (#[trigger] after[j]).destination,
                entry.destination,
            ) by {
                assert(after[j] == entries[j]);
            }
        },
    }
    if !same_path(entry.destination, other) {
        if owns(entries, other) {
            let i = choose|i: int|
                0 <= i < entries.len() && same_path((#[trigger] entries[i]).destination, other);
            match dest_index(entries, entry.destination) {
                Some(index) => {
                    assert(i != index);
                },
                None => {},
            }
            assert(after[i] == entries[i]);
        }
        if owns(after, other) {
            let i = choose|i: int|
                0 <= i < after.len() && same_path((#[trigger] after[i]).destination, other);
            assert(after[i] != entry || same_path(entry.destination, other));
            assert(0 <= i < entries.len() && after[i] == entries[i]);
        }
    }
}

/// After a destination's receipts were taken out nothing owns it, and every
/// other destination is owned exactly as before.
pub proof fn law_remove_clears_destination(
    entries: Seq<AppEntryView>,
    destination: Seq<char>,
    other: Seq<char>,
)
    ensures
        !owns(without_dest(entries, destination), destination),
        !same_path(destination, other) ==> owns(without_dest(entries, destination), other) == owns(
            entries,
            other,
        ),
    decreases entries.len(),
{
    if entries.len() > 0 {
        let head = entries.drop_last();
        let last = entries.last();
        let before = without_dest(head, destination);
        let after = without_dest(entries, destination);
        law_remove_clears_destination(head, destination, other);
        if owns(after, destination) {
            let i = choose|i: int|
                0 <= i < after.len() && same_path((#[trigger] after[i]).destination, destination);
            if i < before.len() {
                assert(after[i] == before[i]);
                assert(owns(before, destination));
            }
            assert(false);
        }
        if !same_path(destination, other) {
            if owns(entries, other) {
                let i = choose|i: int|
                    0 <= i < entries.len() && same_path((#[trigger] entries[i]).destination, other);
                if i < head.len() {
                    assert(head[i] == entries[i]);
                    assert(owns(head, other));
                    let k = choose|k: int|
                        0 <= k < before.len() && same_path(
                            (#[trigger] before[k]).destination,
                            other,
                        );
                    assert(after[k] == before[k]);
                } else {
                    assert(after[before.len() as int] == last);
                }
            }
            if owns(after, other) {
                let i = choose|i: int|
                    0 <= i < after.len() && same_path((#[trigger] after[i]).destination, other);
                if i < before.len() {
                    assert(before[i] == after[i]);
                    assert(owns(before, other));
                    let k = choose|k: int|
                        0 <= k < head.len() && same_path((#[trigger] head[k]).destination, other);
                    assert(entries[k] == head[k]);
                } else {
                    assert(entries[head.len() as int] == last);
                }
            }
        }
    }
}

/// The end of the name of a backup.
pub open spec fn backup_suffix() -> Seq<char> {
    ".shine-backup"@
}

/// The end of the name of rollback material.
pub open spec fn rollback_suffix() -> Seq<char> {
    ".shine-rollback"@
}

/// The fixed path at which a user file is kept while its place is managed.
pub fn backup_path(destination: &str) -> (path: String)
    ensures
        path@ == destination@ + backup_suffix(),
{
    let mut path: String = destination.to_owned();
    path.append(".shine-backup");
    path
}

/// The path beside a destination that holds its previous content during an
/// operation.
pub fn managed_file_rollback_path(destination: &str) -> (path: String)
    ensures
        path@ == destination@ + rollback_suffix(),
{
    let mut path: String = destination.to_owned();
    path.append(".shine-rollback");
    path
}

} // verus!
