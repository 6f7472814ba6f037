//! Where the files of an App go.

use vstd::prelude::*;
use vstd::string::*;

use crate::app_metadata_types::{DestToml, PlatformDestToml};
use crate::app_types::{
    optional_root, AppCategory, AppDestinationRoot, AppFile, DestinationRootView,
};
use crate::context::{context_style, platform_style, RuntimeContext, RuntimePlatform};
use crate::lexical::{lowered, replace_char, replaced, to_ascii_lowercase, trim, trimmed};
use crate::path::{
    absolute, is_absolute, join, parts, path_components, path_join, path_parts, written_style,
    PathStyle,
};
use crate::plan::optional_text;
use crate::text::{
    after_prefix, begins_with, char_lists, chars_of, pieces, same_text, split_chars, starts_with,
    texts,
};

verus! {

/// What is wrong with the metadata of an App category or with a destination.
#[derive(Clone, Copy, Debug, PartialEq, Eq, Structural)]
pub enum MetadataCode {
    CategoryNotFound,
    Unreadable,
    RootedCategoryDestination,
    EmptyPlatformDestinations,
    DestinationNotAbsolute,
    DestinationHasParent,
    RootedPathInvalid,
    PlatformsEmpty,
    UnsupportedPlatform,
    SourceInvalid,
    TargetInvalid,
    MissingFile,
    TransformConflict,
    UnknownTransform,
    ManagedKeysWithoutMerge,
    ManagedKeysMissing,
    ManagedKeysInvalid,
    GeneratorScriptInvalid,
    GeneratorEnvInvalid,
    GeneratorWhenEnvInvalid,
    GeneratorWhenEnvUndeclared,
    MissingGenerator,
    BunExtension,
    HooksEmpty,
    HookCommandEmpty,
    ArtifactScriptEmpty,
    ExpandedNotAbsolute,
    ExpandedHasParent,
    MissingPresetFile,
    ConflictingDestinations,
    BunScriptMissing,
    BunLockIncomplete,
    BunPackageInvalid,
    BunTrustedDependencies,
}

/// What is wrong, and with what.
#[derive(Clone, Debug)]
pub struct MetadataError {
    pub code: MetadataCode,
    pub detail: String,
}

impl View for MetadataError {
    type V = (MetadataCode, Seq<char>);

    open spec fn view(&self) -> (MetadataCode, Seq<char>) {
        (self.code, self.detail@)
    }
}

/// What is wrong, and with what.
pub fn metadata_error(code: MetadataCode, detail: &str) -> (error: MetadataError)
    ensures
        error@ == (code, detail@),
{
    MetadataError { code, detail: detail.to_owned() }
}

/// What is wrong with a path that should be relative.
#[derive(Clone, Copy, Debug, PartialEq, Eq, Structural)]
pub enum RelativePathFault {
    Empty,
    Absolute,
    HasParent,
}

impl RelativePathFault {
    pub open spec fn text(self) -> Seq<char> {
        match self {
            RelativePathFault::Empty => "path must not be empty"@,
            RelativePathFault::Absolute => "path must be relative"@,
            RelativePathFault::HasParent => "path must not contain '..'"@,
        }
    }

    /// The fault in words.
    pub fn message(self) -> (message: &'static str)
        ensures
            message@ == self.text(),
    {
        match self {
            RelativePathFault::Empty => "path must not be empty",
            RelativePathFault::Absolute => "path must be relative",
            RelativePathFault::HasParent => "path must not contain '..'",
        }
    }
}

/// The name that leads one directory up.
pub open spec fn parent_name() -> Seq<char> {
    seq!['.', '.']
}

/// What is wrong with a path that should be relative, if anything is.
pub open spec fn relative_fault(path: Seq<char>, platform: RuntimePlatform) -> Option<
    RelativePathFault,
> {
    if path.len() == 0 {
        Some(RelativePathFault::Empty)
    } else if is_absolute(path, platform_style(platform)) {
        Some(RelativePathFault::Absolute)
    } else if path_parts(path, platform_style(platform)).contains(parent_name()) {
        Some(RelativePathFault::HasParent)
    } else {
        None
    }
}

/// Whether the path leads up anywhere on the system.
pub fn has_parent(path: &str, style: PathStyle) -> (result: bool)
    ensures
        result == path_parts(path@, style).contains(parent_name()),
{
    let list = parts(path, style);
    let mut i: usize = 0;
    while i < list.len()
        invariant
            i <= list.len(),
            texts(list@) == path_parts(path@, style),
            forall|j: int| 0 <= j < i ==> #[trigger] texts(list@)[j] != parent_name(),
        decreases list.len() - i,
    {
        proof {
            assert(texts(list@)[i as int] == list@[i as int]@);
            reveal_strlit("..");
            assert(".."@ =~= parent_name());
        }
        if same_text(list[i].as_str(), "..") {
            assert(path_parts(path@, style)[i as int] == parent_name());
            return true;
        }
        i += 1;
    }
    false
}

/// Accepts a path that is relative on the platform and leads nowhere up.
pub fn normalize_relative(path: &str, platform: RuntimePlatform) -> (result: Result<
    String,
    RelativePathFault,
>)
    ensures
        match relative_fault(path@, platform) {
            None => result is Ok && result->Ok_0@ == path@,
            Some(fault) => result is Err && result->Err_0 == fault,
        },
{
    if chars_of(path).len() == 0 {
        return Err(RelativePathFault::Empty);
    }
    if absolute(path, platform.path_style()) {
        return Err(RelativePathFault::Absolute);
    }
    if has_parent(path, platform.path_style()) {
        return Err(RelativePathFault::HasParent);
    }
    Ok(path.to_owned())
}

/// Whether a destination starts at the user's home.
pub open spec fn starts_at_home(path: Seq<char>) -> bool {
    ||| path == "~"@
    ||| begins_with(path, "~/"@)
    ||| begins_with(path, "~\\"@)
    ||| begins_with(path, "$HOME/"@)
}

/// What is wrong with a destination on a platform, if anything is.
pub open spec fn destination_fault(path: Seq<char>, platform: RuntimePlatform) -> Option<
    MetadataCode,
> {
    if !starts_at_home(path) && !is_absolute(path, platform_style(platform)) {
        Some(MetadataCode::DestinationNotAbsolute)
    } else if pieces(replaced(path, '\\', '/'), '/').contains(parent_name()) {
        Some(MetadataCode::DestinationHasParent)
    } else {
        None
    }
}

fn piece_is_parent(path: &str) -> (result: bool)
    ensures
        result == pieces(replaced(path@, '\\', '/'), '/').contains(parent_name()),
{
    let normal = replace_char(path, '\\', '/');
    let chars = chars_of(normal.as_str());
    let parts = split_chars(chars.as_slice(), '/');
    let mut i: usize = 0;
    while i < parts.len()
        invariant
            i <= parts.len(),
            char_lists(parts@) == pieces(replaced(path@, '\\', '/'), '/'),
            forall|j: int| 0 <= j < i ==> #[trigger] char_lists(parts@)[j] != parent_name(),
        decreases parts.len() - i,
    {
        let part = &parts[i];
        proof {
            assert(char_lists(parts@)[i as int] == part@);
        }
        if part.len() == 2 && part[0] == '.' && part[1] == '.' {
            proof {
                assert(part@ =~= parent_name());
                assert(char_lists(parts@)[i as int] == parent_name());
            }
            return true;
        }
        i += 1;
    }
    false
}

/// Holds a destination against a platform.
pub fn validate_destination(path: &str, platform: RuntimePlatform) -> (fault: Option<MetadataCode>)
    ensures
        fault == destination_fault(path@, platform),
{
    let home = same_text(path, "~") || starts_with(path, "~/") || starts_with(path, "~\\")
        || starts_with(path, "$HOME/");
    if !home && !absolute(path, platform.path_style()) {
        return Some(MetadataCode::DestinationNotAbsolute);
    }
    if piece_is_parent(path) {
        return Some(MetadataCode::DestinationHasParent);
    }
    None
}

/// The destination of a platform map on a platform.
pub open spec fn platform_choice(dest: PlatformDestToml, platform: RuntimePlatform) -> Option<
    Seq<char>,
> {
    match platform {
        RuntimePlatform::Macos => match dest.macos {
            Some(path) => Some(path@),
            None => optional_text(dest.unix),
        },
        RuntimePlatform::Linux => match dest.linux {
            Some(path) => Some(path@),
            None => optional_text(dest.unix),
        },
        RuntimePlatform::Windows => optional_text(dest.windows),
    }
}

/// The destination that holds on a platform, once it is found to be in order.
pub open spec fn checked_destination(
    path: Option<Seq<char>>,
    platform: RuntimePlatform,
) -> Result<Option<Seq<char>>, (MetadataCode, Seq<char>)> {
    match path {
        None => Ok(None),
        Some(path) => match destination_fault(path, platform) {
            Some(code) => Err((code, path)),
            None => Ok(Some(path)),
        },
    }
}

/// What a platform map gives on a platform.
pub open spec fn selected_platform(dest: PlatformDestToml, platform: RuntimePlatform) -> Result<
    Option<Seq<char>>,
    (MetadataCode, Seq<char>),
> {
    if dest.macos is None && dest.linux is None && dest.windows is None && dest.unix is None {
        Err((MetadataCode::EmptyPlatformDestinations, Seq::empty()))
    } else {
        checked_destination(platform_choice(dest, platform), platform)
    }
}

/// What the destination of a category gives on a platform.
pub open spec fn selected_category(dest: DestToml, platform: RuntimePlatform) -> Result<
    Option<Seq<char>>,
    (MetadataCode, Seq<char>),
> {
    match dest {
        DestToml::Single(path) => checked_destination(Some(path@), platform),
        DestToml::Rooted(_) => Err((MetadataCode::RootedCategoryDestination, Seq::empty())),
        DestToml::Platforms(paths) => selected_platform(paths, platform),
    }
}

/// What the destination of a file gives on a platform.
pub open spec fn selected_file(dest: DestToml, platform: RuntimePlatform) -> Result<
    Option<DestinationRootView>,
    (MetadataCode, Seq<char>),
> {
    match dest {
        DestToml::Rooted(rooted) => match relative_fault(rooted.path@, platform) {
            Some(fault) => Err((MetadataCode::RootedPathInvalid, fault.text())),
            None => Ok(Some(DestinationRootView::DataDir { path: rooted.path@ })),
        },
        _ => match selected_category(dest, platform) {
            Err(error) => Err(error),
            Ok(None) => Ok(None),
            Ok(Some(path)) => Ok(Some(DestinationRootView::Path { path })),
        },
    }
}

fn check_destination(path: Option<String>, platform: RuntimePlatform) -> (result: Result<
    Option<String>,
    MetadataError,
>)
    ensures
        match checked_destination(optional_text(path), platform) {
            Ok(checked) => result is Ok && optional_text(result->Ok_0) == checked,
            Err(error) => result is Err && result->Err_0@ == error,
        },
{
    match path {
        None => Ok(None),
        Some(path) => match validate_destination(path.as_str(), platform) {
            Some(code) => Err(MetadataError { code, detail: path }),
            None => Ok(Some(path)),
        },
    }
}

impl PlatformDestToml {
    /// The destination on the platform.
    pub fn select(&self, platform: RuntimePlatform) -> (result: Result<
        Option<String>,
        MetadataError,
    >)
        ensures
            match selected_platform(*self, platform) {
                Ok(path) => result is Ok && optional_text(result->Ok_0) == path,
                Err(error) => result is Err && result->Err_0@ == error,
            },
    {
        if self.macos.is_none() && self.linux.is_none() && self.windows.is_none()
            && self.unix.is_none() {
            return Err(
                MetadataError {
                    code: MetadataCode::EmptyPlatformDestinations,
                    detail: String::new(),
                },
            );
        }
        let own = match platform {
            RuntimePlatform::Macos => &self.macos,
            RuntimePlatform::Linux => &self.linux,
            RuntimePlatform::Windows => &self.windows,
        };
        let chosen: Option<String> = match own {
            Some(path) => Some(path.clone()),
            None => match platform {
                RuntimePlatform::Windows => None,
                _ => match &self.unix {
                    Some(path) => Some(path.clone()),
                    None => None,
                },
            },
        };
        check_destination(chosen, platform)
    }
}

impl DestToml {
    /// The destination of a category on the platform.
    pub fn select(&self, platform: RuntimePlatform) -> (result: Result<
        Option<String>,
        MetadataError,
    >)
        ensures
            match selected_category(*self, platform) {
                Ok(path) => result is Ok && optional_text(result->Ok_0) == path,
                Err(error) => result is Err && result->Err_0@ == error,
            },
    {
        match self {
            DestToml::Single(path) => check_destination(Some(path.clone()), platform),
            DestToml::Rooted(_) => Err(
                MetadataError {
                    code: MetadataCode::RootedCategoryDestination,
                    detail: String::new(),
                },
            ),
            DestToml::Platforms(paths) => paths.select(platform),
        }
    }

    /// The destination of a file on the platform.
    pub fn select_file(&self, platform: RuntimePlatform) -> (result: Result<
        Option<AppDestinationRoot>,
        MetadataError,
    >)
        ensures
            match selected_file(*self, platform) {
                Ok(root) => result is Ok && optional_root(result->Ok_0) == root,
                Err(error) => result is Err && result->Err_0@ == error,
            },
    {
        if let DestToml::Rooted(rooted) = self {
            return match normalize_relative(rooted.path.as_str(), platform) {
                Ok(path) => Ok(Some(AppDestinationRoot::DataDir(path))),
                Err(fault) => Err(
                    metadata_error(MetadataCode::RootedPathInvalid, fault.message()),
                ),
            };
        }
        match self.select(platform) {
            Ok(Some(path)) => Ok(Some(AppDestinationRoot::Path(path))),
            Ok(None) => Ok(None),
            Err(error) => Err(error),
        }
    }
}

/// Whether a name stands for a platform; none where it is no platform's name.
pub open spec fn platform_named(name: Seq<char>, platform: RuntimePlatform) -> Option<bool> {
    let name = lowered(trimmed(name));
    if name == "macos"@ {
        Some(platform == RuntimePlatform::Macos)
    } else if name == "linux"@ {
        Some(platform == RuntimePlatform::Linux)
    } else if name == "windows"@ {
        Some(platform == RuntimePlatform::Windows)
    } else if name == "unix"@ {
        Some(platform != RuntimePlatform::Windows)
    } else {
        None
    }
}

/// Whether one of the names stands for the platform; the first that is no
/// platform's name is refused.
pub open spec fn platform_listed(names: Seq<Seq<char>>, platform: RuntimePlatform) -> Result<
    bool,
    (MetadataCode, Seq<char>),
>
    decreases names.len(),
{
    if names.len() == 0 {
        Ok(false)
    } else {
        match platform_listed(names.drop_last(), platform) {
            Err(error) => Err(error),
            Ok(before) => match platform_named(names.last(), platform) {
                Some(named) => Ok(before || named),
                None => Err((MetadataCode::UnsupportedPlatform, names.last())),
            },
        }
    }
}

/// Whether a file is for a platform: without names it is for all.
pub open spec fn platform_wanted(names: Option<Seq<Seq<char>>>, platform: RuntimePlatform) ->
    Result<bool, (MetadataCode, Seq<char>)> {
    match names {
        None => Ok(true),
        Some(names) => if names.len() == 0 {
            Err((MetadataCode::PlatformsEmpty, Seq::empty()))
        } else {
            platform_listed(names, platform)
        },
    }
}

/// The characters of a list of texts that may be absent.
pub open spec fn optional_texts(list: Option<Vec<String>>) -> Option<Seq<Seq<char>>> {
    match list {
        Some(list) => Some(texts(list@)),
        None => None,
    }
}

fn names_platform(name: &str, platform: RuntimePlatform) -> (named: Option<bool>)
    ensures
        named == platform_named(name@, platform),
{
    let trimmed_name = trim(name);
    let lower = to_ascii_lowercase(trimmed_name.as_str());
    if same_text(lower.as_str(), "macos") {
        Some(platform == RuntimePlatform::Macos)
    } else if same_text(lower.as_str(), "linux") {
        Some(platform == RuntimePlatform::Linux)
    } else if same_text(lower.as_str(), "windows") {
        Some(platform == RuntimePlatform::Windows)
    } else if same_text(lower.as_str(), "unix") {
        Some(platform != RuntimePlatform::Windows)
    } else {
        None
    }
}

proof fn lemma_platform_error_stays(
    names: Seq<Seq<char>>,
    platform: RuntimePlatform,
    count: int,
)
    requires
        0 <= count <= names.len(),
        platform_listed(names.take(count), platform) is Err,
    ensures
        platform_listed(names, platform) == platform_listed(names.take(count), platform),
    decreases names.len() - count,
{
    if count == names.len() {
        assert(names.take(count) =~= names);
    } else {
        assert(names.take(count + 1).drop_last() =~= names.take(count));
        lemma_platform_error_stays(names, platform, count + 1);
    }
}

/// Whether the file is for the platform.
pub fn platform_matches(names: &Option<Vec<String>>, platform: RuntimePlatform) -> (result: Result<
    bool,
    MetadataError,
>)
    ensures
        match platform_wanted(optional_texts(*names), platform) {
            Ok(wanted) => result is Ok && result->Ok_0 == wanted,
            Err(error) => result is Err && result->Err_0@ == error,
        },
{
    let list = match names {
        Some(list) => list,
        None => return Ok(true),
    };
    proof {
        assert(texts(list@).len() == list@.len());
    }
    if list.len() == 0 {
        return Err(MetadataError { code: MetadataCode::PlatformsEmpty, detail: String::new() });
    }
    let ghost all = texts(list@);
    let mut wanted = false;
    let mut i: usize = 0;
    proof {
        assert(all.take(0) =~= Seq::<Seq<char>>::empty());
    }
    while i < list.len()
        invariant
            i <= list.len(),
            all == texts(list@),
            optional_texts(*names) == Some(all),
            all.len() > 0,
            platform_listed(all.take(i as int), platform) == Ok::<bool, (MetadataCode, Seq<char>)>(
                wanted,
            ),
        decreases list.len() - i,
    {
        proof {
            assert(all.take(i as int + 1).drop_last() =~= all.take(i as int));
            assert(all.take(i as int + 1).last() == list@[i as int]@);
        }
        match names_platform(list[i].as_str(), platform) {
            Some(named) => {
                wanted = wanted || named;
            },
            None => {
                proof {
                    lemma_platform_error_stays(all, platform, i as int + 1);
                }
                return Err(
                    metadata_error(MetadataCode::UnsupportedPlatform, list[i].as_str()),
                );
            },
        }
        i += 1;
    }
    proof {
        assert(all.take(all.len() as int) =~= all);
    }
    Ok(wanted)
}

/// A destination with the user's home in place of `~` and `$HOME`.
pub open spec fn expanded(raw: Seq<char>, home: Seq<char>) -> Seq<char> {
    if raw == "~"@ || raw == "$HOME"@ {
        home
    } else if begins_with(raw, "~/"@) {
        path_join(home, raw.skip(2))
    } else if begins_with(raw, "~\\"@) {
        path_join(home, raw.skip(2))
    } else if begins_with(raw, "$HOME/"@) {
        path_join(home, raw.skip(6))
    } else {
        raw
    }
}

/// The expanded destination, which has to be absolute.
pub open spec fn expanded_path(
    raw: Seq<char>,
    home: Seq<char>,
    platform: RuntimePlatform,
) -> Result<Seq<char>, (MetadataCode, Seq<char>)> {
    if is_absolute(expanded(raw, home), context_style(platform, home)) {
        Ok(expanded(raw, home))
    } else {
        Err((MetadataCode::ExpandedNotAbsolute, expanded(raw, home)))
    }
}

/// Expands the destination.
pub fn expand_path(raw: &str, context: &RuntimeContext) -> (result: Result<String, MetadataError>)
    ensures
        match expanded_path(raw@, context.home_dir@, context.platform) {
            Ok(path) => result is Ok && result->Ok_0@ == path,
            Err(error) => result is Err && result->Err_0@ == error,
        },
{
    let home = context.home_dir.as_str();
    proof {
        reveal_strlit("~/");
        reveal_strlit("~\\");
        reveal_strlit("$HOME/");
    }
    let path: String = if same_text(raw, "~") || same_text(raw, "$HOME") {
        home.to_owned()
    } else if let Some(rest) = after_prefix(raw, "~/") {
        join(home, rest.as_str())
    } else if let Some(rest) = after_prefix(raw, "~\\") {
        join(home, rest.as_str())
    } else if let Some(rest) = after_prefix(raw, "$HOME/") {
        join(home, rest.as_str())
    } else {
        raw.to_owned()
    };
    if absolute(path.as_str(), context.path_style()) {
        Ok(path)
    } else {
        Err(MetadataError { code: MetadataCode::ExpandedNotAbsolute, detail: path })
    }
}

/// The directory that a file goes under; its own path where an annotation names it.
pub ghost enum DestinationBase {
    Directory { path: Seq<char> },
    Whole { path: Seq<char> },
}

/// Where a file goes, before its own name is put under it.
pub open spec fn destination_base(
    context: RuntimeContext,
    category_name: Seq<char>,
    category_root: Option<Seq<char>>,
    file_root: Option<DestinationRootView>,
    annotation: Option<Seq<char>>,
) -> Result<DestinationBase, (MetadataCode, Seq<char>)> {
    let root = match file_root {
        Some(root) => Some(root),
        None => match category_root {
            Some(path) => Some(DestinationRootView::Path { path }),
            None => None,
        },
    };
    match root {
        Some(DestinationRootView::DataDir { path }) => Ok(
            DestinationBase::Directory { path: path_join(context.data_dir@, path) },
        ),
        Some(DestinationRootView::Path { path }) => match expanded_path(
            path,
            context.home_dir@,
            context.platform,
        ) {
            Ok(path) => Ok(DestinationBase::Directory { path }),
            Err(error) => Err(error),
        },
        None => match annotation {
            Some(annotation) => match expanded_path(
                annotation,
                context.home_dir@,
                context.platform,
            ) {
                Ok(path) => Ok(DestinationBase::Whole { path }),
                Err(error) => Err(error),
            },
            None => Ok(
                DestinationBase::Directory {
                    path: path_join(context.app_default_dest_root@, category_name),
                },
            ),
        },
    }
}

/// Where a file goes.
pub open spec fn destination_of(
    context: RuntimeContext,
    category_name: Seq<char>,
    category_root: Option<Seq<char>>,
    file_root: Option<DestinationRootView>,
    annotation: Option<Seq<char>>,
    target: Seq<char>,
) -> Result<Seq<char>, (MetadataCode, Seq<char>)> {
    match destination_base(context, category_name, category_root, file_root, annotation) {
        Err(error) => Err(error),
        Ok(DestinationBase::Whole { path }) => Ok(path),
        Ok(DestinationBase::Directory { path }) => {
            let destination = path_join(path, target);
            if path_components(destination).contains(parent_name()) {
                Err((MetadataCode::ExpandedHasParent, destination))
            } else {
                Ok(destination)
            }
        },
    }
}

/// Where a file of a category goes.
pub open spec fn app_destination_of(
    context: RuntimeContext,
    category: AppCategory,
    file: AppFile,
) -> Result<Seq<char>, (MetadataCode, Seq<char>)> {
    destination_of(
        context,
        category.name@,
        optional_text(category.destination_root),
        optional_root(file.destination_root),
        optional_text(file.legacy_dest_annotation),
        file.target_rel@,
    )
}

/// Where the file of the category goes.
pub fn resolve_destination(context: &RuntimeContext, category: &AppCategory, file: &AppFile) -> (
    result: Result<String, MetadataError>)
    ensures
        match app_destination_of(*context, *category, *file) {
            Ok(path) => result is Ok && result->Ok_0@ == path,
            Err(error) => result is Err && result->Err_0@ == error,
        },
{
    let base: String = match (&file.destination_root, &category.destination_root) {
        (Some(AppDestinationRoot::DataDir(path)), _) => join(
            context.data_dir.as_str(),
            path.as_str(),
        ),
        (Some(AppDestinationRoot::Path(path)), _) => match expand_path(path.as_str(), context) {
            Ok(path) => path,
            Err(error) => return Err(error),
        },
        (None, Some(path)) => match expand_path(path.as_str(), context) {
            Ok(path) => path,
            Err(error) => return Err(error),
        },
        (None, None) => match &file.legacy_dest_annotation {
            Some(annotation) => return expand_path(annotation.as_str(), context),
            None => join(context.app_default_dest_root.as_str(), category.name.as_str()),
        },
    };
    let destination = join(base.as_str(), file.target_rel.as_str());
    if has_parent(destination.as_str(), written_style(destination.as_str())) {
        return Err(
            MetadataError { code: MetadataCode::ExpandedHasParent, detail: destination },
        );
    }
    Ok(destination)
}

/// A destination that is put together from a root never leads up.
pub proof fn law_destination_never_leads_up(
    context: RuntimeContext,
    category_name: Seq<char>,
    category_root: Option<Seq<char>>,
    file_root: Option<DestinationRootView>,
    target: Seq<char>,
)
    ensures
        match destination_of(context, category_name, category_root, file_root, None, target) {
            Ok(path) => !path_components(path).contains(parent_name()),
            Err(_) => true,
        },
{
}

} // verus!
