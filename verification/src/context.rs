//! Where a runtime works: its directories, its platform and its environment.

use vstd::prelude::*;
use vstd::string::*;

use crate::path::{
    components_below, is_under, join, join_texts, logical_path, logical_text, path_components,
    path_join, strip_root, style_of, written_style, PathStyle,
};
use crate::plan::{optional_text, permission_views, PermissionSetV1, PermissionV1, PermissionView};
use crate::text::{list_contains, same_text, texts};

verus! {

#[derive(Clone, Copy, Debug, PartialEq, Eq, Structural)]
pub enum RuntimePlatform {
    Linux,
    Macos,
    Windows,
}

/// One variable of the environment.
#[derive(Clone, Debug)]
pub struct EnvValue {
    pub name: String,
    pub value: String,
}

/// The directories, the platform and the environment of a runtime.
#[derive(Clone, Debug)]
pub struct RuntimeContext {
    pub home_dir: String,
    pub shine_dir: String,
    pub presets_dir: String,
    pub bin_dir: String,
    pub data_dir: String,
    pub cache_dir: String,
    pub overlay_dir: Option<String>,
    pub app_default_dest_root: String,
    pub platform: RuntimePlatform,
    pub env: Vec<EnvValue>,
    pub path_env: Option<String>,
    pub running_as_admin: bool,
    pub is_external_presets: bool,
    pub allow_app_hooks: bool,
}

/// The variables of an environment, each with its value.
pub open spec fn env_pairs(env: Seq<EnvValue>) -> Seq<(Seq<char>, Seq<char>)> {
    env.map_values(|entry: EnvValue| (entry.name@, entry.value@))
}

/// The value of a variable: that of its last entry.
pub open spec fn env_lookup(env: Seq<(Seq<char>, Seq<char>)>, name: Seq<char>) -> Option<Seq<char>>
    decreases env.len(),
{
    if env.len() == 0 {
        None
    } else if env.last().0 == name {
        Some(env.last().1)
    } else {
        env_lookup(env.drop_last(), name)
    }
}

/// Looks a variable up.
pub fn env_value(env: &Vec<EnvValue>, name: &str) -> (value: Option<String>)
    ensures
        optional_text(value) == env_lookup(env_pairs(env@), name@),
{
    let ghost all = env_pairs(env@);
    let mut i: usize = env.len();
    proof {
        assert(all.take(all.len() as int) =~= all);
    }
    while i > 0
        invariant
            i <= env.len(),
            all == env_pairs(env@),
            env_lookup(all, name@) == env_lookup(all.take(i as int), name@),
        decreases i,
    {
        proof {
            assert(all.take(i as int).drop_last() =~= all.take(i as int - 1));
            assert(all.take(i as int).last() == (
                env@[i as int - 1].name@,
                env@[i as int - 1].value@,
            ));
        }
        i -= 1;
        if same_text(env[i].name.as_str(), name) {
            return Some(env[i].value.clone());
        }
    }
    proof {
        assert(all.take(0) =~= Seq::<(Seq<char>, Seq<char>)>::empty());
    }
    None
}

/// Sets a variable.
pub fn set_env(env: &mut Vec<EnvValue>, name: &str, value: &str)
    ensures
        env_pairs(final(env)@) == env_pairs(old(env)@).push((name@, value@)),
{
    let ghost before = env@;
    env.push(EnvValue { name: name.to_owned(), value: value.to_owned() });
    proof {
        assert(env_pairs(env@) =~= env_pairs(before).push((name@, value@)));
    }
}

impl RuntimePlatform {
    pub open spec fn text(self) -> Seq<char> {
        match self {
            RuntimePlatform::Linux => "linux"@,
            RuntimePlatform::Macos => "macos"@,
            RuntimePlatform::Windows => "windows"@,
        }
    }

    /// The stable name of the platform.
    pub fn as_str(self) -> (name: &'static str)
        ensures
            name@ == self.text(),
    {
        match self {
            RuntimePlatform::Linux => "linux",
            RuntimePlatform::Macos => "macos",
            RuntimePlatform::Windows => "windows",
        }
    }
}

/// How relative paths are written on a platform.
pub open spec fn platform_style(platform: RuntimePlatform) -> PathStyle {
    if platform == RuntimePlatform::Windows {
        PathStyle::Windows
    } else {
        PathStyle::Unix
    }
}

impl RuntimePlatform {
    /// How relative paths are written on the platform.
    pub fn path_style(self) -> (style: PathStyle)
        ensures
            style == platform_style(self),
    {
        match self {
            RuntimePlatform::Windows => PathStyle::Windows,
            _ => PathStyle::Unix,
        }
    }
}

/// How the absolute paths of a context are written: as on Windows where the platform is
/// Windows and the home starts at a drive or a share. A context for Windows with a home
/// under `/` is looked at on another system, whose paths it has.
pub open spec fn context_style(platform: RuntimePlatform, home: Seq<char>) -> PathStyle {
    if platform == RuntimePlatform::Windows {
        style_of(home)
    } else {
        PathStyle::Unix
    }
}

impl RuntimeContext {
    /// How the absolute paths of the context are written.
    pub fn path_style(&self) -> (style: PathStyle)
        ensures
            style == context_style(self.platform, self.home_dir@),
    {
        match self.platform {
            RuntimePlatform::Windows => written_style(self.home_dir.as_str()),
            _ => PathStyle::Unix,
        }
    }

    /// A context of its own under the given directories, with an empty
    /// environment and no privilege.
    pub fn isolated(
        home_dir: &str,
        shine_dir: &str,
        presets_dir: &str,
        bin_dir: &str,
        platform: RuntimePlatform,
    ) -> (context: RuntimeContext)
        ensures
            context.home_dir@ == home_dir@,
            context.shine_dir@ == shine_dir@,
            context.presets_dir@ == presets_dir@,
            context.bin_dir@ == bin_dir@,
            context.data_dir@ == path_join(home_dir@, ".local/share"@),
            context.cache_dir@ == path_join(home_dir@, ".cache"@),
            context.overlay_dir is None,
            context.app_default_dest_root@ == path_join(home_dir@, ".config"@),
            context.platform == platform,
            context.env@.len() == 0,
            context.path_env is None,
            !context.running_as_admin,
            !context.is_external_presets,
            !context.allow_app_hooks,
    {
        RuntimeContext {
            home_dir: home_dir.to_owned(),
            shine_dir: shine_dir.to_owned(),
            presets_dir: presets_dir.to_owned(),
            bin_dir: bin_dir.to_owned(),
            data_dir: join(home_dir, ".local/share"),
            cache_dir: join(home_dir, ".cache"),
            overlay_dir: None,
            app_default_dest_root: join(home_dir, ".config"),
            platform,
            env: Vec::new(),
            path_env: None,
            running_as_admin: false,
            is_external_presets: false,
            allow_app_hooks: false,
        }
    }

    /// The path of the App manifest.
    pub open spec fn manifest_text(&self) -> Seq<char> {
        path_join(self.shine_dir@, "app-manifest.toml"@)
    }

    /// The path of the App manifest.
    pub fn manifest_path(&self) -> (path: String)
        ensures
            path@ == self.manifest_text(),
    {
        join(self.shine_dir.as_str(), "app-manifest.toml")
    }
}

/// A path below `root` as it is shown for review: `.` for the root itself.
pub open spec fn relative_text(path: Seq<char>, root: Seq<char>) -> Seq<char> {
    if components_below(path, root).len() == 0 {
        "."@
    } else {
        logical_text(components_below(path, root))
    }
}

/// A path as it is shown for review: by the directory of the context that it
/// lies under, without what stands above it.
pub open spec fn review_text(context: RuntimeContext, path: Seq<char>) -> Seq<char> {
    if is_under(path, context.shine_dir@) {
        "shine:"@ + relative_text(path, context.shine_dir@)
    } else if is_under(path, context.data_dir@) {
        "data-dir:"@ + relative_text(path, context.data_dir@)
    } else if is_under(path, context.home_dir@) {
        "home:"@ + relative_text(path, context.home_dir@)
    } else {
        "absolute:"@ + logical_text(path_components(path))
    }
}

fn reviewed_below(base: &str, path: &str, root: &str) -> (text: Option<String>)
    ensures
        text is Some <==> is_under(path@, root@),
        text is Some ==> text->0@ == base@ + relative_text(path@, root@),
{
    match strip_root(path, root) {
        Some(rest) => {
            proof {
                assert(texts(rest@).len() == rest@.len());
            }
            let mut text: String = base.to_owned();
            if rest.len() == 0 {
                text.append(".");
            } else {
                proof {
                    reveal_strlit("/");
                    assert("/"@ =~= seq!['/']);
                }
                text.append(join_texts(rest.as_slice(), "/").as_str());
            }
            Some(text)
        },
        None => None,
    }
}

/// The path as it is shown for review.
pub fn review_path(context: &RuntimeContext, path: &str) -> (text: String)
    ensures
        text@ == review_text(*context, path@),
{
    if let Some(text) = reviewed_below("shine:", path, context.shine_dir.as_str()) {
        return text;
    }
    if let Some(text) = reviewed_below("data-dir:", path, context.data_dir.as_str()) {
        return text;
    }
    if let Some(text) = reviewed_below("home:", path, context.home_dir.as_str()) {
        return text;
    }
    let mut text: String = "absolute:".to_owned();
    text.append(logical_path(path).as_str());
    text
}

/// Whether a set of permissions names one of the given review paths.
pub open spec fn permissions_touch(
    required: Set<PermissionView>,
    reviewed: Seq<Seq<char>>,
) -> bool {
    exists|access: crate::plan::FilesystemAccessV1, path: Seq<char>|
        #[trigger] required.contains(PermissionView::Filesystem { access, path })
            && reviewed.contains(path)
}

/// The review paths of a list of paths.
pub open spec fn review_texts(context: RuntimeContext, paths: Seq<Seq<char>>) -> Seq<Seq<char>> {
    paths.map_values(|path: Seq<char>| review_text(context, path))
}

/// Whether the permissions name one of the paths.
pub fn recovery_permissions_touch_paths(
    required: &PermissionSetV1,
    context: &RuntimeContext,
    paths: &Vec<String>,
) -> (touched: bool)
    ensures
        touched == permissions_touch(required@, review_texts(*context, texts(paths@))),
{
    let mut reviewed: Vec<String> = Vec::new();
    let mut i: usize = 0;
    while i < paths.len()
        invariant
            i <= paths.len(),
            texts(reviewed@) == review_texts(*context, texts(paths@)).take(i as int),
        decreases paths.len() - i,
    {
        let ghost before = reviewed@;
        reviewed.push(review_path(context, paths[i].as_str()));
        proof {
            let all = review_texts(*context, texts(paths@));
            assert(all.take(i as int + 1) =~= all.take(i as int).push(all[i as int]));
            assert(texts(reviewed@) =~= texts(before).push(all[i as int]));
        }
        i += 1;
    }
    let ghost all = review_texts(*context, texts(paths@));
    proof {
        assert(all.take(all.len() as int) =~= all);
    }
    let mut k: usize = 0;
    while k < required.items.len()
        invariant
            k <= required.items.len(),
            texts(reviewed@) == all,
            all == review_texts(*context, texts(paths@)),
            forall|j: int|
                0 <= j < k ==> match #[trigger] required.items@[j]@ {
                    PermissionView::Filesystem { access, path } => !all.contains(path),
                    _ => true,
                },
        decreases required.items.len() - k,
    {
        if let PermissionV1::Filesystem { access, path } = &required.items[k] {
            if list_contains(reviewed.as_slice(), path.as_str()) {
                proof {
                    let found = PermissionView::Filesystem { access: *access, path: path@ };
                    assert(permission_views(required.items@)[k as int] == found);
                    assert(required@.contains(found));
                }
                return true;
            }
        }
        k += 1;
    }
    proof {
        assert forall|access: crate::plan::FilesystemAccessV1, path: Seq<char>| #[trigger]
            required@.contains(PermissionView::Filesystem { access, path }) implies !all.contains(
            path,
        ) by {
            let views = permission_views(required.items@);
            let j = choose|j: int|
                0 <= j < views.len() && views[j] == (PermissionView::Filesystem { access, path });
            assert(views[j] == required.items@[j]@);
        }
    }
    false
}

} // verus!
