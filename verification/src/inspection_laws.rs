//! What an inspection tells of installed files.

use vstd::prelude::*;

use crate::app_install::{desired_hash_of, installed_hash_of};
use crate::app_lifecycle::{app_source, AssessedView};
use crate::app_upgrade::{upgrade_decision, UpgradeDecision};
use crate::content::content_hash;
use crate::inspection::{
    direct_entry, inspection_of, shown_content, shown_entry, source_entry, ChangeView,
    InspectionFileStatus,
};
use crate::json::{json_object, rendered, JsonFault};
use crate::lifecycle_laws::{has_none, law_identity_of_keys, under_keys};
use crate::manifest::{dest_index, lemma_dest_index, lemma_source_index, source_index, AppEntryView};
use crate::path::same_path;

verus! {

/// Whether something is installed whose identity is this one: the whole content for a
/// whole file, the members under the keys for keys.
pub open spec fn is_installed_as(
    keys: Option<Seq<Seq<char>>>,
    current: Option<Seq<u8>>,
    hash: u64,
) -> bool {
    current is Some && match keys {
        None => content_hash(current->0) == hash,
        Some(keys) => {
            &&& json_object(current->0) is Some
            &&& !has_none(current->0, keys)
            &&& rendered(under_keys(current->0, keys)) is Some
            &&& content_hash(rendered(under_keys(current->0, keys))->0) == hash
        },
    }
}

/// Whether something is installed at all: a file, with at least one of its keys.
pub open spec fn is_installed(keys: Option<Seq<Seq<char>>>, current: Option<Seq<u8>>) -> bool {
    current is Some && match keys {
        None => true,
        Some(keys) => json_object(current->0) is Some && !has_none(current->0, keys),
    }
}

/// Whether a file is generated only when that is asked for.
pub open spec fn is_by_hand(assessment: AssessedView) -> bool {
    assessment.file.generator is Some && !assessment.file.generator->0.auto
}

/// What an inspection says of a file that has a receipt for its destination. It is
/// missing where nothing stands there, partial where none of its keys is left, and
/// modified by a user exactly where something is installed whose identity is not the
/// receipt's, for whole files and for keys alike. Otherwise what is installed is what the
/// receipt says; then an update is to be had exactly where the content that would be
/// installed has another identity, and nothing keeps it from being known.
pub proof fn law_inspection_tells_user_changes_from_updates(
    assessment: AssessedView,
    entry: AppEntryView,
    by_source: Option<AppEntryView>,
    current: Option<Seq<u8>>,
    category_installed: bool,
)
    requires
        inspection_of(
            assessment,
            Some(entry),
            by_source,
            current,
            category_installed,
        ) is Ok,
    ensures
        ({
            let keys = assessment.file.install_strategy;
            let finding = inspection_of(
                assessment,
                Some(entry),
                by_source,
                current,
                category_installed,
            )->Ok_0;
            let status = finding.status;
            let intact = is_installed_as(keys, current, entry.content_hash);
            let newer = !is_by_hand(assessment) && assessment.generator_error is None
                && assessment.content is Some && desired_hash_of(keys, assessment.content->0)
                != Ok::<u64, JsonFault>(entry.content_hash);
            &&& status == InspectionFileStatus::Missing <==> current is None
            &&& status == InspectionFileStatus::Partial <==> current is Some && !is_installed(
                keys,
                current,
            )
            &&& status == InspectionFileStatus::UserModified <==> is_installed(keys, current)
                && !intact
            &&& status == InspectionFileStatus::UpdateAvail <==> intact && newer
            &&& status == InspectionFileStatus::UpToDate <==> intact && !newer
            &&& finding.changes == if status == InspectionFileStatus::UpdateAvail {
                seq![ChangeView::ContentChanged]
            } else {
                Seq::empty()
            }
        }),
{
    if let (Some(keys), Some(text)) = (assessment.file.install_strategy, current) {
        law_identity_of_keys(text, text, keys);
    }
}

/// An inspection fails only where an object that is to be compared cannot be read or
/// written.
pub proof fn law_inspection_of_whole_files_never_fails(
    assessment: AssessedView,
    direct: Option<AppEntryView>,
    by_source: Option<AppEntryView>,
    current: Option<Seq<u8>>,
    category_installed: bool,
)
    ensures
        assessment.file.install_strategy is None ==> inspection_of(
            assessment,
            direct,
            by_source,
            current,
            category_installed,
        ) is Ok,
        direct is None && by_source is None ==> inspection_of(
            assessment,
            direct,
            by_source,
            current,
            category_installed,
        ) is Ok,
{
}

/// What an inspection says of a file that has no receipt for its destination. With a
/// receipt of its source it moved, and that is an update, which names both places and says
/// whether the content changes too; a file that is generated by hand is held against that
/// receipt instead. Without any receipt it is a new file of an installed category, or is
/// not installed.
pub proof fn law_inspection_tells_moved_and_new_files(
    assessment: AssessedView,
    by_source: Option<AppEntryView>,
    current: Option<Seq<u8>>,
    category_installed: bool,
)
    requires
        inspection_of(assessment, None, by_source, current, category_installed) is Ok,
    ensures
        ({
            let keys = assessment.file.install_strategy;
            let finding = inspection_of(
                assessment,
                None,
                by_source,
                current,
                category_installed,
            )->Ok_0;
            let status = finding.status;
            match by_source {
                Some(entry) => if is_by_hand(assessment) {
                    let intact = is_installed_as(keys, current, entry.content_hash);
                    &&& finding.changes.len() == 0
                    &&& status == InspectionFileStatus::Missing <==> current is None
                    &&& status == InspectionFileStatus::Partial <==> current is Some
                        && !is_installed(keys, current)
                    &&& status == InspectionFileStatus::UserModified <==> is_installed(
                        keys,
                        current,
                    ) && !intact
                    &&& status == InspectionFileStatus::UpToDate <==> intact
                } else {
                    let differs = assessment.content is Some && desired_hash_of(
                        keys,
                        assessment.content->0,
                    ) != Ok::<u64, JsonFault>(entry.content_hash);
                    &&& status == InspectionFileStatus::UpdateAvail
                    &&& finding.changes.len() == if differs {
                        2nat
                    } else {
                        1
                    }
                    &&& finding.changes[0] == (ChangeView::DestinationRelocated {
                        from: entry.destination,
                        to: assessment.destination,
                    })
                    &&& differs ==> finding.changes[1] == ChangeView::ContentChanged
                },
                None => {
                    let new = category_installed && !is_by_hand(assessment)
                        && assessment.content is Some;
                    &&& status == InspectionFileStatus::UpdateAvail <==> new
                    &&& status == InspectionFileStatus::NotInstalled <==> !new
                    &&& finding.changes == if new {
                        seq![ChangeView::NewFile { destination: assessment.destination }]
                    } else {
                        Seq::empty()
                    }
                },
            }
        }),
{
    if let (Some(keys), Some(text)) = (assessment.file.install_strategy, current) {
        law_identity_of_keys(text, text, keys);
    }
}

/// The receipt that an inspection shows is the one for the destination, or, where there
/// is none, the one of the source; content is shown only with a receipt.
pub proof fn law_inspection_shows_the_receipt_of_the_destination_first(
    entries: Seq<AppEntryView>,
    assessment: AssessedView,
    current: Option<Vec<u8>>,
)
    ensures
        match direct_entry(entries, assessment) {
            Some(entry) => {
                &&& same_path(entry.destination, assessment.destination)
                &&& entries.contains(entry)
                &&& shown_entry(entries, assessment) == Some(entry)
            },
            None => forall|i: int|
                0 <= i < entries.len() ==> !same_path(
                    (#[trigger] entries[i]).destination,
                    assessment.destination,
                ),
        },
        match source_entry(entries, assessment) {
            Some(entry) => {
                &&& entry.source == app_source(assessment.category, assessment.file.source_rel)
                &&& entries.contains(entry)
                &&& direct_entry(entries, assessment) is None ==> shown_entry(entries, assessment)
                    == Some(entry)
            },
            None => forall|i: int|
                0 <= i < entries.len() ==> (#[trigger] entries[i]).source != app_source(
                    assessment.category,
                    assessment.file.source_rel,
                ),
        },
        shown_entry(entries, assessment) is None <==> direct_entry(entries, assessment) is None
            && source_entry(entries, assessment) is None,
        shown_content(entries, assessment, current) == if shown_entry(
            entries,
            assessment,
        ) is Some && current is Some {
            Some(current->0@)
        } else {
            None
        },
{
    lemma_dest_index(entries, assessment.destination);
    lemma_source_index(
        entries,
        app_source(assessment.category, assessment.file.source_rel),
    );
    if let Some(index) = dest_index(entries, assessment.destination) {
        assert(entries.contains(entries[index]));
    }
    if let Some(index) = source_index(
        entries,
        app_source(assessment.category, assessment.file.source_rel),
    ) {
        assert(entries.contains(entries[index]));
    }
}

/// An inspection and an upgrade agree on a file in its place: what the one calls modified
/// the other keeps, what the one calls up to date the other leaves alone, and where the
/// one sees an update, or misses the file, the other installs.
pub proof fn law_inspection_foretells_the_upgrade(
    assessment: AssessedView,
    entry: AppEntryView,
    current: Option<Seq<u8>>,
    category_installed: bool,
    desired_hash: u64,
    found: Option<u64>,
)
    requires
        inspection_of(assessment, Some(entry), None, current, category_installed) is Ok,
        !is_by_hand(assessment),
        assessment.generator_error is None,
        assessment.content is Some,
        desired_hash_of(assessment.file.install_strategy, assessment.content->0) == Ok::<
            u64,
            JsonFault,
        >(desired_hash),
        match current {
            Some(text) => installed_hash_of(assessment.file.install_strategy, text) == Ok::<
                Option<u64>,
                JsonFault,
            >(found),
            None => found is None,
        },
    ensures
        ({
            let status = inspection_of(
                assessment,
                Some(entry),
                None,
                current,
                category_installed,
            )->Ok_0.status;
            let decision = upgrade_decision(
                entry.content_hash,
                desired_hash,
                found,
                false,
                false,
            );
            &&& status == InspectionFileStatus::UserModified <==> decision
                == UpgradeDecision::UserModified
            &&& status == InspectionFileStatus::UpToDate <==> decision == UpgradeDecision::Unchanged
            &&& status == InspectionFileStatus::UpdateAvail || status
                == InspectionFileStatus::Missing || status == InspectionFileStatus::Partial
                <==> decision is Install
        }),
{
}

} // verus!
