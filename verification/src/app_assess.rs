//! What an App file is to hold before it is installed.

use vstd::prelude::*;
use vstd::string::*;

use crate::app_dest::{MetadataCode, MetadataError};
use crate::app_metadata::MetadataFault;
use crate::app_types::{AppFile, AppFileView};
use crate::context::RuntimePlatform;
use crate::path::join_texts;
use crate::presets::{preset_file, PresetFileView};
use crate::runtime::{source_path, CoreRuntime};
use crate::text::{joined, joined_by};

verus! {

/// What came of the generator of a file.
#[derive(Clone, Debug)]
pub enum Generated {
    /// The file has none, or this is a preview.
    NotRun,
    /// It had nothing to do.
    Nothing,
    Made(Vec<u8>),
    /// It failed. `installed` tells whether the file has a receipt and is there.
    Failed { error: String, installed: bool },
}

/// The content of a file before it is transformed.
#[derive(Clone, Debug)]
pub enum RawContent {
    Content(Vec<u8>),
    /// What is installed is kept, because the generator failed.
    Kept(String),
}

/// Why there is no content for a file.
#[derive(Clone, Debug)]
pub enum AssessFault {
    Metadata(MetadataError),
    Generator(String),
}

/// The content of a file before it is transformed, by the values.
pub ghost enum RawView {
    Content { bytes: Seq<u8> },
    Kept { error: Seq<char> },
}

/// Why there is no content for a file, by the values.
pub ghost enum AssessFaultView {
    Metadata { fault: MetadataFault },
    Generator { error: Seq<char> },
}

/// The content of a file, or why there is none.
pub open spec fn raw_view(raw: Result<RawContent, AssessFault>) -> Result<
    RawView,
    AssessFaultView,
> {
    match raw {
        Ok(RawContent::Content(bytes)) => Ok(RawView::Content { bytes: bytes@ }),
        Ok(RawContent::Kept(error)) => Ok(RawView::Kept { error: error@ }),
        Err(AssessFault::Metadata(fault)) => Err(AssessFaultView::Metadata { fault: fault@ }),
        Err(AssessFault::Generator(error)) => Err(AssessFaultView::Generator { error: error@ }),
    }
}

/// Whether the generator of a file is asked.
pub open spec fn asks_generator(file: AppFileView, dry_run: bool) -> bool {
    !dry_run && file.generator is Some
}

/// Whether the generator of the file is asked.
pub fn wants_generator(file: &AppFile, dry_run: bool) -> (asks: bool)
    ensures
        asks == asks_generator(file@, dry_run),
{
    !dry_run && file.generator.is_some()
}

/// The content of a file before it is transformed: what its generator made, or its
/// preset file. Where the generator failed an installed file is kept.
pub open spec fn raw_content(
    files: Seq<PresetFileView>,
    platform: RuntimePlatform,
    category: Seq<char>,
    file: AppFileView,
    generated: Generated,
) -> Result<RawView, AssessFaultView> {
    let path = source_path(category, file.source_rel, platform);
    match generated {
        Generated::Made(bytes) => Ok(RawView::Content { bytes: bytes@ }),
        Generated::Failed { error, installed } => if installed {
            Ok(RawView::Kept { error: error@ })
        } else {
            Err(AssessFaultView::Generator { error: error@ })
        },
        _ => match preset_file(files, path) {
            Some(source) => Ok(RawView::Content { bytes: source.bytes }),
            None => Err(
                AssessFaultView::Metadata { fault: (MetadataCode::MissingPresetFile, path) },
            ),
        },
    }
}

impl CoreRuntime {
    /// The content of the file before it is transformed.
    pub fn app_raw_content(&self, category: &str, file: &AppFile, generated: Generated) -> (raw:
        Result<RawContent, AssessFault>)
        ensures
            raw_view(raw) == raw_content(
                self.presets@,
                self.context.platform,
                category@,
                file@,
                generated,
            ),
    {
        match generated {
            Generated::Made(bytes) => Ok(RawContent::Content(bytes)),
            Generated::Failed { error, installed } => if installed {
                Ok(RawContent::Kept(error))
            } else {
                Err(AssessFault::Generator(error))
            },
            _ => match self.app_source_bytes(category, file) {
                Ok(bytes) => {
                    let mut content: Vec<u8> = Vec::new();
                    content.extend_from_slice(bytes);
                    proof {
                        assert(content@ =~= bytes@);
                    }
                    Ok(RawContent::Content(content))
                },
                Err(error) => Err(AssessFault::Metadata(error)),
            },
        }
    }
}

/// Which transforms failed.
pub open spec fn transform_failure(transforms: Seq<Seq<char>>) -> Seq<char> {
    "transform failed: "@ + joined_by(transforms, ", "@)
}

/// Says which transforms failed.
pub fn transform_failed(file: &AppFile) -> (message: String)
    ensures
        message@ == transform_failure(file@.transforms),
{
    let list = join_texts(file.transforms.as_slice(), ", ");
    joined("transform failed: ", list.as_str())
}

} // verus!
