//! What is found of installed files when they are inspected.

use vstd::prelude::*;
use vstd::string::*;

use crate::app_install::{
    desired_app_hash, desired_hash_of, installed_app_hash, installed_hash_of,
};
use crate::app_lifecycle::{app_source, source_of, AssessedAppFile, AssessedView};
use crate::app_types::{AppCategory, AppFile, PermissionDeclarationV1};
use crate::json::JsonFault;
use crate::manifest::{
    dest_index, entry_of_source, lemma_dest_index, AppEntry, AppEntryView, AppManifest,
};

verus! {

#[derive(Clone, Copy, Debug, PartialEq, Eq, PartialOrd, Ord, Structural)]
pub enum InspectionFileStatus {
    NotInstalled,
    UpToDate,
    UpdateAvail,
    GeneratorNotEvaluated,
    GeneratorEvaluationFailed,
    GeneratorTrustRequired,
    Partial,
    UserModified,
    Missing,
}

/// What differs between what is installed and what would be.
#[derive(Clone, Debug)]
pub enum InspectionChange {
    ContentChanged,
    SourceRelocated { from: String, to: String },
    DestinationRelocated { from: String, to: String },
    NewFile { destination: String },
    DeploymentChanged { field: String, from: String, to: String },
    CommandEntryMissing { path: String },
    CommandEntryOutdated { path: String },
    ManifestEntryMissing { target: String },
}

/// A change by the characters it holds.
pub ghost enum ChangeView {
    ContentChanged,
    SourceRelocated { from: Seq<char>, to: Seq<char> },
    DestinationRelocated { from: Seq<char>, to: Seq<char> },
    NewFile { destination: Seq<char> },
    DeploymentChanged { field: Seq<char>, from: Seq<char>, to: Seq<char> },
    CommandEntryMissing { path: Seq<char> },
    CommandEntryOutdated { path: Seq<char> },
    ManifestEntryMissing { target: Seq<char> },
}

impl View for InspectionChange {
    type V = ChangeView;

    open spec fn view(&self) -> ChangeView {
        match *self {
            InspectionChange::ContentChanged => ChangeView::ContentChanged,
            InspectionChange::SourceRelocated { from, to } => ChangeView::SourceRelocated {
                from: from@,
                to: to@,
            },
            InspectionChange::DestinationRelocated { from, to } =>
                ChangeView::DestinationRelocated { from: from@, to: to@ },
            InspectionChange::NewFile { destination } => ChangeView::NewFile {
                destination: destination@,
            },
            InspectionChange::DeploymentChanged { field, from, to } =>
                ChangeView::DeploymentChanged { field: field@, from: from@, to: to@ },
            InspectionChange::CommandEntryMissing { path } => ChangeView::CommandEntryMissing {
                path: path@,
            },
            InspectionChange::CommandEntryOutdated { path } => ChangeView::CommandEntryOutdated {
                path: path@,
            },
            InspectionChange::ManifestEntryMissing { target } => ChangeView::ManifestEntryMissing {
                target: target@,
            },
        }
    }
}

/// The views of a list of changes.
pub open spec fn change_views(changes: Seq<InspectionChange>) -> Seq<ChangeView> {
    changes.map_values(|change: InspectionChange| change@)
}

impl InspectionChange {
    /// Whether the content is among the changes.
    pub fn includes_content(changes: &Vec<InspectionChange>) -> (found: bool)
        ensures
            found == change_views(changes@).contains(ChangeView::ContentChanged),
    {
        let mut i: usize = 0;
        while i < changes.len()
            invariant
                i <= changes.len(),
                forall|j: int|
                    0 <= j < i ==> #[trigger] change_views(changes@)[j]
                        != ChangeView::ContentChanged,
            decreases changes.len() - i,
        {
            proof {
                assert(change_views(changes@)[i as int] == changes@[i as int]@);
            }
            if let InspectionChange::ContentChanged = &changes[i] {
                assert(change_views(changes@)[i as int] == ChangeView::ContentChanged);
                return true;
            }
            i += 1;
        }
        false
    }
}

/// What was found of an App file.
#[derive(Clone, Debug)]
pub struct AppFileInspection {
    pub category: AppCategory,
    pub file: AppFile,
    pub destination: Option<String>,
    pub status: InspectionFileStatus,
    pub manifest_entry: Option<AppEntry>,
    pub desired_content: Option<Vec<u8>>,
    pub current_content: Option<Vec<u8>>,
    pub changes: Vec<InspectionChange>,
    pub assessment_error: Option<String>,
    pub assessment_diagnostic: Option<String>,
}

/// A command of a shell category.
#[derive(Clone, Debug)]
pub struct ShellFile {
    pub command_name: String,
    pub description: String,
    pub permissions: Option<PermissionDeclarationV1>,
}

/// The commands of one shell preset.
#[derive(Clone, Debug)]
pub struct ShellCategory {
    pub name: String,
    pub description: Option<String>,
    pub uses_metadata: bool,
    pub files: Vec<ShellFile>,
}

/// What was found of a shell command.
#[derive(Clone, Debug)]
pub struct ShellFileInspection {
    pub category: ShellCategory,
    pub file: ShellFile,
    pub source_path: String,
    pub installed_source_path: String,
    pub rendered_path: String,
    pub link_path: String,
    pub link_target: Option<String>,
    pub desired_content: Option<Vec<u8>>,
    pub current_content: Option<Vec<u8>>,
    pub status: InspectionFileStatus,
    pub status_text: String,
    pub installed: bool,
    pub link_conflict: bool,
    pub preset_missing: bool,
    pub changes: Vec<InspectionChange>,
}

/// What was found of Apps and shell commands.
#[derive(Clone, Debug)]
pub struct DomainInspectionReport {
    pub app_files: Vec<AppFileInspection>,
    pub shell_files: Vec<ShellFileInspection>,
}

/// What is found of an installed file whose receipt is for its destination.
pub ghost struct FindingView {
    pub status: InspectionFileStatus,
    pub changes: Seq<ChangeView>,
}

/// A finding without changes.
pub open spec fn found(status: InspectionFileStatus) -> FindingView {
    FindingView { status, changes: Seq::empty() }
}

/// Whether the content that would be installed differs from the receipt.
pub open spec fn content_differs(assessment: AssessedView, receipt_hash: u64) -> Result<
    bool,
    JsonFault,
> {
    match assessment.content {
        None => Ok(false),
        Some(content) => match desired_hash_of(assessment.file.install_strategy, content) {
            Ok(hash) => Ok(hash != receipt_hash),
            Err(fault) => Err(fault),
        },
    }
}

/// How an installed file stands against its receipt; none where it is as the
/// receipt has it.
pub open spec fn standing(
    assessment: AssessedView,
    receipt_hash: u64,
    current: Option<Seq<u8>>,
) -> Result<Option<InspectionFileStatus>, JsonFault> {
    match current {
        None => Ok(Some(InspectionFileStatus::Missing)),
        Some(current) => match installed_hash_of(assessment.file.install_strategy, current) {
            Err(fault) => Err(fault),
            Ok(None) => Ok(Some(InspectionFileStatus::Partial)),
            Ok(Some(hash)) => if hash != receipt_hash {
                Ok(Some(InspectionFileStatus::UserModified))
            } else {
                Ok(None)
            },
        },
    }
}

/// Whether a generated file is refreshed only when asked for.
pub open spec fn manual_generator(assessment: AssessedView) -> bool {
    assessment.file.generator is Some && !assessment.file.generator->0.auto
}

/// What inspecting an App file finds: `direct` is the receipt for its destination,
/// `by_source` the receipt of its source, `current` what stands at the destination
/// of the first of them that there is.
pub open spec fn inspection_of(
    assessment: AssessedView,
    direct: Option<AppEntryView>,
    by_source: Option<AppEntryView>,
    current: Option<Seq<u8>>,
    category_installed: bool,
) -> Result<FindingView, JsonFault> {
    match direct {
        Some(entry) => match standing(assessment, entry.content_hash, current) {
            Err(fault) => Err(fault),
            Ok(Some(status)) => Ok(found(status)),
            Ok(None) => if manual_generator(assessment) || assessment.generator_error is Some {
                Ok(found(InspectionFileStatus::UpToDate))
            } else {
                match content_differs(assessment, entry.content_hash) {
                    Err(fault) => Err(fault),
                    Ok(true) => Ok(
                        FindingView {
                            status: InspectionFileStatus::UpdateAvail,
                            changes: seq![ChangeView::ContentChanged],
                        },
                    ),
                    Ok(false) => Ok(found(InspectionFileStatus::UpToDate)),
                }
            },
        },
        None => match by_source {
            Some(entry) => if manual_generator(assessment) {
                match standing(assessment, entry.content_hash, current) {
                    Err(fault) => Err(fault),
                    Ok(Some(status)) => Ok(found(status)),
                    Ok(None) => Ok(found(InspectionFileStatus::UpToDate)),
                }
            } else {
                let moved = ChangeView::DestinationRelocated {
                    from: entry.destination,
                    to: assessment.destination,
                };
                match content_differs(assessment, entry.content_hash) {
                    Err(fault) => Err(fault),
                    Ok(differs) => Ok(
                        FindingView {
                            status: InspectionFileStatus::UpdateAvail,
                            changes: if differs {
                                seq![moved, ChangeView::ContentChanged]
                            } else {
                                seq![moved]
                            },
                        },
                    ),
                }
            },
            None => if category_installed && !manual_generator(assessment)
                && assessment.content is Some {
                Ok(
                    FindingView {
                        status: InspectionFileStatus::UpdateAvail,
                        changes: seq![
                            ChangeView::NewFile { destination: assessment.destination },
                        ],
                    },
                )
            } else {
                Ok(found(InspectionFileStatus::NotInstalled))
            },
        },
    }
}

fn differs_from_receipt(assessment: &AssessedAppFile, receipt_hash: u64) -> (result: Result<
    bool,
    JsonFault,
>)
    ensures
        result == content_differs(assessment@, receipt_hash),
{
    match &assessment.content {
        None => Ok(false),
        Some(content) => match desired_app_hash(&assessment.file, content.as_slice()) {
            Ok(hash) => Ok(hash != receipt_hash),
            Err(fault) => Err(fault),
        },
    }
}

fn stands(assessment: &AssessedAppFile, receipt_hash: u64, current: Option<&[u8]>) -> (result:
    Result<Option<InspectionFileStatus>, JsonFault>)
    ensures
        result == standing(
            assessment@,
            receipt_hash,
            match current {
                Some(current) => Some(current@),
                None => None,
            },
        ),
{
    match current {
        None => Ok(Some(InspectionFileStatus::Missing)),
        Some(current) => match installed_app_hash(&assessment.file, current) {
            Err(fault) => Err(fault),
            Ok(None) => Ok(Some(InspectionFileStatus::Partial)),
            Ok(Some(hash)) => if hash != receipt_hash {
                Ok(Some(InspectionFileStatus::UserModified))
            } else {
                Ok(None)
            },
        },
    }
}

/// What inspecting the App file finds.
pub fn inspect_app_file(
    assessment: &AssessedAppFile,
    direct: Option<&AppEntry>,
    by_source: Option<&AppEntry>,
    current: Option<&[u8]>,
    category_installed: bool,
) -> (result: Result<(InspectionFileStatus, Vec<InspectionChange>), JsonFault>)
    ensures
        match inspection_of(
            assessment@,
            match direct {
                Some(entry) => Some(entry@),
                None => None,
            },
            match by_source {
                Some(entry) => Some(entry@),
                None => None,
            },
            match current {
                Some(current) => Some(current@),
                None => None,
            },
            category_installed,
        ) {
            Ok(finding) => result is Ok && result->Ok_0.0 == finding.status && change_views(
                result->Ok_0.1@,
            ) == finding.changes,
            Err(fault) => result is Err && result->Err_0 == fault,
        },
{
    let manual = match &assessment.file.generator {
        Some(generator) => !generator.auto,
        None => false,
    };
    let mut changes: Vec<InspectionChange> = Vec::new();
    let status: InspectionFileStatus = if let Some(entry) = direct {
        match stands(assessment, entry.content_hash, current) {
            Err(fault) => return Err(fault),
            Ok(Some(status)) => status,
            Ok(None) => {
                if manual || assessment.generator_error.is_some() {
                    InspectionFileStatus::UpToDate
                } else {
                    match differs_from_receipt(assessment, entry.content_hash) {
                        Err(fault) => return Err(fault),
                        Ok(differs) => {
                            if differs {
                                changes.push(InspectionChange::ContentChanged);
                                InspectionFileStatus::UpdateAvail
                            } else {
                                InspectionFileStatus::UpToDate
                            }
                        },
                    }
                }
            },
        }
    } else if let Some(entry) = by_source {
        if manual {
            match stands(assessment, entry.content_hash, current) {
                Err(fault) => return Err(fault),
                Ok(Some(status)) => status,
                Ok(None) => InspectionFileStatus::UpToDate,
            }
        } else {
            changes.push(
                InspectionChange::DestinationRelocated {
                    from: entry.destination.clone(),
                    to: assessment.destination.clone(),
                },
            );
            match differs_from_receipt(assessment, entry.content_hash) {
                Err(fault) => return Err(fault),
                Ok(differs) => {
                    if differs {
                        changes.push(InspectionChange::ContentChanged);
                    }
                },
            }
            InspectionFileStatus::UpdateAvail
        }
    } else if category_installed && !manual && assessment.content.is_some() {
        changes.push(InspectionChange::NewFile { destination: assessment.destination.clone() });
        InspectionFileStatus::UpdateAvail
    } else {
        InspectionFileStatus::NotInstalled
    };
    proof {
        let expected = inspection_of(
            assessment@,
            match direct {
                Some(entry) => Some(entry@),
                None => None,
            },
            match by_source {
                Some(entry) => Some(entry@),
                None => None,
            },
            match current {
                Some(current) => Some(current@),
                None => None,
            },
            category_installed,
        );
        assert(change_views(changes@) =~= expected->Ok_0.changes);
    }
    Ok((status, changes))
}

/// A receipt that may be absent, by its values.
pub open spec fn optional_entry(entry: Option<&AppEntry>) -> Option<AppEntryView> {
    match entry {
        Some(entry) => Some(entry@),
        None => None,
    }
}

/// The receipt for the destination of an assessed file.
pub open spec fn direct_entry(entries: Seq<AppEntryView>, assessment: AssessedView) -> Option<
    AppEntryView,
> {
    match dest_index(entries, assessment.destination) {
        Some(index) => Some(entries[index]),
        None => None,
    }
}

/// The receipt for the source of an assessed file.
pub open spec fn source_entry(entries: Seq<AppEntryView>, assessment: AssessedView) -> Option<
    AppEntryView,
> {
    entry_of_source(entries, app_source(assessment.category, assessment.file.source_rel))
}

/// The receipt that is shown for an assessed file: the one for its destination, or
/// else the one for its source.
pub open spec fn shown_entry(entries: Seq<AppEntryView>, assessment: AssessedView) -> Option<
    AppEntryView,
> {
    match direct_entry(entries, assessment) {
        Some(entry) => Some(entry),
        None => source_entry(entries, assessment),
    }
}

fn find_direct<'a>(manifest: &'a AppManifest, assessment: &AssessedAppFile) -> (entry: Option<
    &'a AppEntry,
>)
    ensures
        optional_entry(entry) == direct_entry(manifest@, assessment@),
{
    proof {
        lemma_dest_index(manifest@, assessment.destination@);
    }
    manifest.find_by_dest(assessment.destination.as_str())
}

fn find_source<'a>(manifest: &'a AppManifest, assessment: &AssessedAppFile) -> (entry: Option<
    &'a AppEntry,
>)
    ensures
        optional_entry(entry) == source_entry(manifest@, assessment@),
{
    let source = source_of(assessment.category.as_str(), assessment.file.source_rel.as_str());
    manifest.find_by_source(source.as_str())
}

/// The receipt that is shown for the assessed file, whose destination is read.
pub fn inspected_entry<'a>(manifest: &'a AppManifest, assessment: &AssessedAppFile) -> (entry:
    Option<&'a AppEntry>)
    ensures
        optional_entry(entry) == shown_entry(manifest@, assessment@),
{
    match find_direct(manifest, assessment) {
        Some(entry) => Some(entry),
        None => find_source(manifest, assessment),
    }
}

/// The content that is shown for a file: what stands at the destination of its receipt,
/// and nothing where no receipt is shown.
pub open spec fn shown_content(
    entries: Seq<AppEntryView>,
    assessment: AssessedView,
    current: Option<Vec<u8>>,
) -> Option<Seq<u8>> {
    match (shown_entry(entries, assessment), current) {
        (Some(_), Some(current)) => Some(current@),
        _ => None,
    }
}

/// What was found of an assessed file, from what stands at the destination of the
/// receipt that is shown for it. Without such a receipt no content is looked at.
pub fn finish_inspection(
    manifest: &AppManifest,
    assessment: AssessedAppFile,
    category: AppCategory,
    current: Option<Vec<u8>>,
    category_installed: bool,
) -> (result: Result<AppFileInspection, JsonFault>)
    ensures
        match inspection_of(
            assessment@,
            direct_entry(manifest@, assessment@),
            source_entry(manifest@, assessment@),
            shown_content(manifest@, assessment@, current),
            category_installed,
        ) {
            Ok(finding) => {
                &&& result is Ok
                &&& result->Ok_0.category == category
                &&& result->Ok_0.file == assessment.file
                &&& result->Ok_0.destination == Some(assessment.destination)
                &&& result->Ok_0.status == finding.status
                &&& match result->Ok_0.manifest_entry {
                    Some(entry) => shown_entry(manifest@, assessment@) == Some(entry@),
                    None => shown_entry(manifest@, assessment@) is None,
                }
                &&& result->Ok_0.desired_content == assessment.content
                &&& result->Ok_0.current_content == if shown_entry(
                    manifest@,
                    assessment@,
                ) is Some {
                    current
                } else {
                    None
                }
                &&& change_views(result->Ok_0.changes@) == finding.changes
                &&& result->Ok_0.assessment_error == assessment.generator_error
                &&& result->Ok_0.assessment_diagnostic is None
            },
            Err(fault) => result is Err && result->Err_0 == fault,
        },
{
    let current = match inspected_entry(manifest, &assessment) {
        Some(_) => current,
        None => None,
    };
    let found: Option<&[u8]> = match &current {
        Some(current) => Some(current.as_slice()),
        None => None,
    };
    let inspected = inspect_app_file(
        &assessment,
        find_direct(manifest, &assessment),
        find_source(manifest, &assessment),
        found,
        category_installed,
    );
    let (status, changes) = match inspected {
        Ok(inspected) => inspected,
        Err(fault) => return Err(fault),
    };
    let manifest_entry = match inspected_entry(manifest, &assessment) {
        Some(entry) => Some(entry.copied()),
        None => None,
    };
    Ok(
        AppFileInspection {
            category,
            file: assessment.file,
            destination: Some(assessment.destination),
            status,
            manifest_entry,
            desired_content: assessment.content,
            current_content: current,
            changes,
            assessment_error: assessment.generator_error,
            assessment_diagnostic: None,
        },
    )
}

} // verus!
