//! From preset files to App categories.

use shine_core::app_dest::{MetadataCode, MetadataError};
use shine_core::app_metadata_types::{
    ArtifactRuntimeToml, ArtifactToml, CategoryToml, DestBaseToml, DestToml, FileToml,
    GeneratorToml, HookSpecToml, HookToml, InstallModeToml, ListModeToml, PlatformDestToml,
    RootedDestToml,
};
use shine_core::app_types::{AppCategory, AppDestinationRoot, AppListMode, ArtifactRuntime};
use shine_core::context::{RuntimeContext, RuntimePlatform};
use shine_core::manifest::AppInstallStrategy;
use shine_core::presets::{PresetSnapshot, PresetSnapshotBuilder, PresetSourceKind};
use shine_core::runtime::CoreRuntime;

fn text(value: &toml::Value) -> String {
    value.as_str().unwrap().to_string()
}

fn optional(table: &toml::Table, name: &str) -> Option<String> {
    table.get(name).map(text)
}

fn texts(table: &toml::Table, name: &str) -> Option<Vec<String>> {
    table.get(name).map(|value| value.as_array().unwrap().iter().map(text).collect())
}

fn read_dest(value: &toml::Value) -> DestToml {
    match value {
        toml::Value::String(path) => DestToml::Single(path.clone()),
        toml::Value::Table(table) if table.contains_key("base") => {
            DestToml::Rooted(RootedDestToml {
                base: DestBaseToml::DataDir,
                path: text(&table["path"]),
            })
        }
        toml::Value::Table(table) => DestToml::Platforms(PlatformDestToml {
            macos: optional(table, "macos"),
            linux: optional(table, "linux"),
            windows: optional(table, "windows"),
            unix: optional(table, "unix"),
        }),
        _ => panic!("unexpected destination"),
    }
}

fn read_file(table: &toml::Table) -> FileToml {
    FileToml {
        source: text(&table["source"]),
        target: optional(table, "target"),
        dest: table.get("dest").map(read_dest),
        description: optional(table, "description"),
        display_name: optional(table, "display_name"),
        platforms: texts(table, "platforms"),
        transform: optional(table, "transform"),
        transforms: texts(table, "transforms"),
        install_mode: table.get("install_mode").map(|mode| match mode.as_str().unwrap() {
            "json-merge" => InstallModeToml::JsonMerge,
            _ => InstallModeToml::Copy,
        }),
        managed_keys: texts(table, "managed_keys"),
        requires_admin: false,
        restart_hint: optional(table, "restart_hint"),
        generator: table.get("generator").map(|value| {
            let table = value.as_table().unwrap();
            GeneratorToml {
                script: text(&table["script"]),
                runtime: table.get("runtime").map(|_| ArtifactRuntimeToml::Bun),
                env: texts(table, "env").unwrap_or_default(),
                when_env: text(&table["when_env"]),
                auto: true,
            }
        }),
    }
}

fn read_category(content: &str) -> CategoryToml {
    let table: toml::Table = toml::from_str(content).unwrap();
    CategoryToml {
        description: optional(&table, "description"),
        dest: read_dest(&table["dest"]),
        list_mode: table.get("list_mode").map(|mode| match mode.as_str().unwrap() {
            "category" => ListModeToml::Category,
            _ => ListModeToml::Files,
        }),
        post_upgrade: None,
        post_install: None,
        artifact: None,
        files: table.get("files").map(|value| {
            let list = value.as_array().unwrap();
            list.iter().map(|item| read_file(item.as_table().unwrap())).collect()
        }),
        permissions: None,
    }
}

fn with_metadata(
    builder: PresetSnapshotBuilder,
    path: &str,
    content: &str,
) -> PresetSnapshotBuilder {
    builder
        .file(path, content.as_bytes().to_vec())
        .metadata(path, read_category(content))
}

fn context(platform: RuntimePlatform) -> RuntimeContext {
    RuntimeContext::isolated("/home/me", "/home/me/.shine", "/presets", "/bin", platform)
}

#[test]
fn parses_app_category_from_snapshot_and_selects_platform() {
    let snapshot = with_metadata(
        PresetSnapshot::builder(PresetSourceKind::External),
        "app/demo/shine.toml",
        "dest = { linux = \"~/.config/demo\" }\n[[files]]\nsource = \"config.toml\"\n",
    )
    .file("app/demo/config.toml", b"value = true\n".to_vec())
    .build();
    let runtime = CoreRuntime::new(context(RuntimePlatform::Linux), snapshot);
    let categories = runtime.app_categories(Some("demo")).unwrap();
    assert_eq!(categories[0].files.len(), 1);
    assert_eq!(
        runtime
            .app_destination(&categories[0], &categories[0].files[0])
            .unwrap(),
        "/home/me/.config/demo/config.toml"
    );
}

fn runtime_of(platform: RuntimePlatform, content: &str, others: &[&str]) -> CoreRuntime {
    let mut builder = with_metadata(
        PresetSnapshot::builder(PresetSourceKind::External),
        "app/demo/shine.toml",
        content,
    );
    for path in others {
        builder = builder.file(path, b"content".to_vec());
    }
    let mut context = context(platform);
    context.is_external_presets = true;
    CoreRuntime::new(context, builder.build())
}

fn parse(content: &str, others: &[&str]) -> Result<Vec<AppCategory>, MetadataError> {
    runtime_of(RuntimePlatform::Linux, content, others).app_categories(Some("demo"))
}

fn fault(content: &str, others: &[&str]) -> (MetadataCode, String) {
    let error = parse(content, others).unwrap_err();
    (error.code, error.detail)
}

#[test]
fn another_platform_has_no_such_category() {
    let content = "dest = { linux = \"~/.config/demo\" }\n[[files]]\nsource = \"config\"\n";
    let runtime = runtime_of(RuntimePlatform::Windows, content, &["app/demo/config"]);
    assert!(runtime.app_categories(Some("demo")).unwrap().is_empty());
    let unix = "dest = { unix = \"/etc/demo\" }\n[[files]]\nsource = \"config\"\n";
    let runtime = runtime_of(RuntimePlatform::Macos, unix, &["app/demo/config"]);
    let categories = runtime.app_categories(None).unwrap();
    assert_eq!(categories[0].destination_root.as_deref(), Some("/etc/demo"));
}

#[test]
fn external_categories_that_are_not_there_are_errors() {
    let content = "dest = \"~/.config/demo\"\n";
    let runtime = runtime_of(RuntimePlatform::Linux, content, &["app/demo/config"]);
    let error = runtime.app_categories(Some("other")).unwrap_err();
    assert_eq!((error.code, error.detail.as_str()), (MetadataCode::CategoryNotFound, "other"));
    let runtime = CoreRuntime::new(
        context(RuntimePlatform::Linux),
        PresetSnapshot::builder(PresetSourceKind::Embedded).build(),
    );
    assert!(runtime.app_categories(Some("other")).unwrap().is_empty());
}

#[test]
fn categories_come_in_the_order_of_their_names() {
    let snapshot = PresetSnapshot::builder(PresetSourceKind::Embedded)
        .file("app/a-b/config", b"one".to_vec())
        .file("app/a/config", b"two".to_vec())
        .file("app/a/other", b"three".to_vec())
        .file("shell/z/run", b"four".to_vec())
        .build();
    let runtime = CoreRuntime::new(context(RuntimePlatform::Linux), snapshot);
    let names: Vec<String> =
        runtime.app_categories(None).unwrap().into_iter().map(|item| item.name).collect();
    assert_eq!(names, vec!["a", "a-b"]);
}

#[test]
fn files_of_a_category_without_metadata_speak_for_themselves() {
    let snapshot = PresetSnapshot::builder(PresetSourceKind::Embedded)
        .file(
            "app/old/tool",
            b"#!/bin/sh\n# shine-dest: ~/bin/tool \n#  \n  # A tool\n".to_vec(),
        )
        .file("app/old/data", vec![0xff, 0xfe])
        .build();
    let runtime = CoreRuntime::new(context(RuntimePlatform::Linux), snapshot);
    let categories = runtime.app_categories(None).unwrap();
    let category = &categories[0];
    assert!(!category.uses_metadata);
    assert_eq!(category.list_mode, AppListMode::Category);
    assert!(category.files[0].legacy_dest_annotation.is_none());
    assert!(category.files[0].description.is_none());
    assert_eq!(category.files[1].legacy_dest_annotation.as_deref(), Some("~/bin/tool"));
    assert_eq!(
        category.files[1].description.as_deref(),
        Some("shine-dest: ~/bin/tool")
    );
    assert_eq!(
        runtime.app_destination(category, &category.files[1]).unwrap(),
        "/home/me/bin/tool"
    );
    assert_eq!(
        runtime.app_destination(category, &category.files[0]).unwrap(),
        "/home/me/.config/old/data"
    );
}

#[test]
fn metadata_that_could_not_be_read_is_an_error() {
    let snapshot = PresetSnapshot::builder(PresetSourceKind::Embedded)
        .file("app/demo/shine.toml", b"dest = [".to_vec())
        .build();
    let runtime = CoreRuntime::new(context(RuntimePlatform::Linux), snapshot);
    let error = runtime.app_categories(None).unwrap_err();
    assert_eq!(error.code, MetadataCode::Unreadable);
    assert_eq!(error.detail, "app/demo/shine.toml");
}

#[test]
fn destinations_have_to_be_absolute_and_lead_nowhere_up() {
    assert_eq!(fault("dest = \"config\"\n", &[]).0, MetadataCode::DestinationNotAbsolute);
    assert_eq!(fault("dest = \"~/a/../b\"\n", &[]).0, MetadataCode::DestinationHasParent);
    assert_eq!(fault("dest = {}\n", &[]).0, MetadataCode::EmptyPlatformDestinations);
    assert_eq!(
        fault("dest = { base = \"data-dir\", path = \"x\" }\n", &[]).0,
        MetadataCode::RootedCategoryDestination
    );
    let windows = |dest: &str| {
        let content = format!("dest = '{dest}'\n[[files]]\nsource = \"config\"\n");
        runtime_of(RuntimePlatform::Windows, &content, &["app/demo/config"])
            .app_categories(None)
            .is_ok()
    };
    assert!(windows("C:\\Users\\me"));
    assert!(windows("\\\\server\\share"));
    assert!(!windows("/etc/demo"));
    assert!(!windows("C:\\a\\..\\b"));
}

#[test]
fn files_are_checked_one_by_one() {
    let dest = "dest = \"~/.config/demo\"\n[[files]]\n";
    let file = |rest: &str| format!("{dest}{rest}");
    let there = &["app/demo/config"];
    assert_eq!(
        fault(&file("source = \"config\"\nplatforms = []\n"), there).0,
        MetadataCode::PlatformsEmpty
    );
    assert_eq!(
        fault(&file("source = \"config\"\nplatforms = [\"linux\", \"beos\"]\n"), there),
        (MetadataCode::UnsupportedPlatform, "beos".to_string())
    );
    assert_eq!(
        fault(&file("source = \"\"\n"), there),
        (MetadataCode::SourceInvalid, "path must not be empty".to_string())
    );
    assert_eq!(
        fault(&file("source = \"config\"\ntarget = \"/x\"\n"), there),
        (MetadataCode::TargetInvalid, "path must be relative".to_string())
    );
    assert_eq!(
        fault(&file("source = \"../config\"\n"), there),
        (MetadataCode::SourceInvalid, "path must not contain '..'".to_string())
    );
    assert_eq!(
        fault(&file("source = \"missing\"\n"), there),
        (MetadataCode::MissingFile, "missing".to_string())
    );
    assert_eq!(
        fault(
            &file("source = \"config\"\ntransform = \"template\"\ntransforms = []\n"),
            there
        )
        .0,
        MetadataCode::TransformConflict
    );
    assert_eq!(
        fault(&file("source = \"config\"\ntransform = \"rot13\"\n"), there),
        (MetadataCode::UnknownTransform, "rot13".to_string())
    );
    assert_eq!(
        fault(&file("source = \"config\"\nmanaged_keys = [\"a\"]\n"), there).0,
        MetadataCode::ManagedKeysWithoutMerge
    );
    assert_eq!(
        fault(&file("source = \"config\"\ninstall_mode = \"json-merge\"\n"), there).0,
        MetadataCode::ManagedKeysMissing
    );
    for keys in ["[]", "[\" \"]", "[\"a.b\"]"] {
        let rest = format!(
            "source = \"config\"\ninstall_mode = \"json-merge\"\nmanaged_keys = {keys}\n"
        );
        assert_eq!(fault(&file(&rest), there).0, MetadataCode::ManagedKeysInvalid);
    }
    assert_eq!(
        fault(
            &file("source = \"config\"\ndest = { base = \"data-dir\", path = \"../x\" }\n"),
            there
        ),
        (MetadataCode::RootedPathInvalid, "path must not contain '..'".to_string())
    );
}

#[test]
fn generators_name_their_script_and_their_variable() {
    let file = |generator: &str| {
        format!(
            "dest = \"~/.config/demo\"\n[[files]]\nsource = \"config\"\ngenerator = {generator}\n"
        )
    };
    let there = &["app/demo/config", "app/demo/gen.ts"];
    assert_eq!(
        fault(&file("{ script = \"/gen\", when_env = \"A\" }"), there).0,
        MetadataCode::GeneratorScriptInvalid
    );
    assert_eq!(
        fault(&file("{ script = \"gen.py\", runtime = \"bun\", when_env = \"A\" }"), there),
        (MetadataCode::BunExtension, "gen.py".to_string())
    );
    assert_eq!(
        fault(&file("{ script = \"gen.ts\", env = [\"1A\"], when_env = \"A\" }"), there),
        (MetadataCode::GeneratorEnvInvalid, "1A".to_string())
    );
    assert_eq!(
        fault(&file("{ script = \"gen.ts\", when_env = \"A-B\" }"), there).0,
        MetadataCode::GeneratorWhenEnvInvalid
    );
    assert_eq!(
        fault(&file("{ script = \"gen.ts\", env = [\"B\"], when_env = \"A\" }"), there).0,
        MetadataCode::GeneratorWhenEnvUndeclared
    );
    assert_eq!(
        fault(&file("{ script = \"none.ts\", env = [\"A\"], when_env = \"A\" }"), there),
        (MetadataCode::MissingGenerator, "none.ts".to_string())
    );
    let content = file("{ script = \"gen.ts\", runtime = \"bun\", env = [\"A:B\"], when_env = \"A\" }");
    let categories = parse(&content, there).unwrap();
    let generator = categories[0].files[0].generator.as_ref().unwrap();
    assert_eq!(generator.runtime, ArtifactRuntime::Bun);
    assert_eq!(generator.env[0].source, "A");
    assert_eq!(generator.env[0].target, "B");
}

#[test]
fn accepted_files_keep_what_was_said_of_them() {
    let content = "dest = \"~/.config/demo\"\n[[files]]\nsource = \"a\"\nplatforms = [\" Linux \"]\n\
        target = \"b\"\ndescription = \"A\"\ntransforms = [\"template\"]\n\
        [[files]]\nsource = \"c\"\nplatforms = [\"windows\"]\n\
        [[files]]\nsource = \"d\"\ndest = { base = \"data-dir\", path = \"inner\" }\n\
        install_mode = \"json-merge\"\nmanaged_keys = [\"proxy\"]\n";
    let categories = parse(content, &["app/demo/a", "app/demo/d"]).unwrap();
    let category = &categories[0];
    assert_eq!(category.list_mode, AppListMode::Files);
    assert!(category.uses_metadata && category.has_explicit_files);
    assert_eq!(category.files.len(), 2);
    assert_eq!(category.files[0].target_rel, "b");
    assert_eq!(category.files[0].description.as_deref(), Some("A"));
    assert_eq!(category.files[0].transforms, vec!["template"]);
    assert!(matches!(
        &category.files[1].destination_root,
        Some(AppDestinationRoot::DataDir(path)) if path == "inner"
    ));
    assert!(matches!(
        &category.files[1].install_strategy,
        AppInstallStrategy::JsonMerge { managed_keys } if managed_keys == &vec!["proxy"]
    ));
}

#[test]
fn a_category_without_a_list_has_all_its_files() {
    let categories = parse(
        "dest = \"/etc/demo\"\n",
        &["app/demo/b/c", "app/demo/a", "app/demonstration/x"],
    )
    .unwrap();
    let sources: Vec<&str> =
        categories[0].files.iter().map(|file| file.source_rel.as_str()).collect();
    assert_eq!(sources, vec!["a", "b/c"]);
    assert_eq!(categories[0].list_mode, AppListMode::Category);
    assert!(parse("dest = \"/etc/demo\"\n", &[]).unwrap().is_empty());
}

fn category_with(change: impl Fn(&mut CategoryToml)) -> Result<Vec<AppCategory>, MetadataError> {
    let mut metadata = read_category("dest = \"/etc/demo\"\n");
    change(&mut metadata);
    let snapshot = PresetSnapshot::builder(PresetSourceKind::External)
        .file("app/demo/shine.toml", Vec::new())
        .metadata("app/demo/shine.toml", metadata)
        .file("app/demo/config", b"x".to_vec())
        .build();
    CoreRuntime::new(context(RuntimePlatform::Linux), snapshot).app_categories(None)
}

fn hook(command: &str) -> HookToml {
    HookToml { command: command.to_string(), args: vec!["-v".to_string()], show_output: true }
}

#[test]
fn hooks_and_artifacts_are_checked() {
    let error =
        category_with(|metadata| metadata.post_install = Some(HookSpecToml::Multiple(Vec::new())))
            .unwrap_err();
    assert_eq!((error.code, error.detail.as_str()), (MetadataCode::HooksEmpty, "post_install"));
    let error = category_with(|metadata| {
        metadata.post_upgrade = Some(HookSpecToml::Single(hook(" ")));
    })
    .unwrap_err();
    assert_eq!(
        (error.code, error.detail.as_str()),
        (MetadataCode::HookCommandEmpty, "post_upgrade")
    );
    let artifact = |script: &str, teardown: Option<&str>, bun: bool| {
        let artifact = ArtifactToml {
            script: script.to_string(),
            teardown: teardown.map(str::to_string),
            runtime: bun.then_some(ArtifactRuntimeToml::Bun),
        };
        category_with(|metadata| metadata.artifact = Some(artifact.clone()))
    };
    assert_eq!(
        artifact("", None, false).unwrap_err().code,
        MetadataCode::ArtifactScriptEmpty
    );
    assert_eq!(
        artifact("a.ts", Some(" "), false).unwrap_err().code,
        MetadataCode::ArtifactScriptEmpty
    );
    let error = artifact("a.ts", Some("b.sh"), true).unwrap_err();
    assert_eq!((error.code, error.detail.as_str()), (MetadataCode::BunExtension, "b.sh"));
    let categories = category_with(|metadata| {
        metadata.post_install = Some(HookSpecToml::Multiple(vec![hook("one"), hook("two")]));
        metadata.artifact = Some(ArtifactToml {
            script: "a.mts".to_string(),
            teardown: None,
            runtime: Some(ArtifactRuntimeToml::Bun),
        });
    })
    .unwrap();
    assert_eq!(categories[0].post_install.len(), 2);
    assert_eq!(categories[0].post_install[1].command, "two");
    assert!(categories[0].post_install[0].show_output);
    assert_eq!(categories[0].artifact.as_ref().unwrap().runtime, ArtifactRuntime::Bun);
}

#[test]
fn preset_content_is_found_by_its_normal_path() {
    let content = "dest = \"/etc/demo\"\n[[files]]\nsource = \"sub//config\"\n";
    let runtime = runtime_of(RuntimePlatform::Linux, content, &["app/demo/sub/config"]);
    let mut categories = runtime.app_categories(None).unwrap();
    let file = &mut categories[0].files[0];
    assert_eq!(runtime.app_source_bytes("demo", file).unwrap(), b"content");
    file.source_rel = "gone".to_string();
    let error = runtime.app_source_bytes("demo", file).unwrap_err();
    assert_eq!(error.code, MetadataCode::MissingPresetFile);
    assert_eq!(error.detail, "app/demo/gone");
}

#[test]
fn two_files_may_not_share_a_destination() {
    let content = "dest = \"/etc/demo\"\n[[files]]\nsource = \"a\"\ntarget = \"x/y\"\n\
        [[files]]\nsource = \"b\"\ntarget = \"x//y\"\n";
    let runtime = runtime_of(RuntimePlatform::Linux, content, &["app/demo/a", "app/demo/b"]);
    let error = runtime.validate_app_category_snapshot("demo").unwrap_err();
    assert_eq!(error.code, MetadataCode::ConflictingDestinations);
    assert_eq!(
        error.detail,
        "app/demo/a and app/demo/b both resolve to /etc/demo/x//y"
    );
    let apart = content.replace("x//y", "x/z");
    let runtime = runtime_of(RuntimePlatform::Linux, &apart, &["app/demo/a", "app/demo/b"]);
    assert!(runtime.validate_app_category_snapshot("demo").unwrap());
}

#[test]
fn a_category_without_metadata_is_valid_and_says_so() {
    let snapshot = PresetSnapshot::builder(PresetSourceKind::External)
        .file("app/old/config", b"x".to_vec())
        .build();
    let runtime = CoreRuntime::new(context(RuntimePlatform::Linux), snapshot);
    assert!(!runtime.validate_app_category_snapshot("old").unwrap());
}

#[test]
fn bun_scripts_come_with_their_lock() {
    let content = "dest = \"/etc/demo\"\n[[files]]\nsource = \"a\"\n\
        generator = { script = \"gen.ts\", runtime = \"bun\", env = [\"A\"], when_env = \"A\" }\n";
    let check = |package: Option<&str>, lock: bool| {
        let mut builder = with_metadata(
            PresetSnapshot::builder(PresetSourceKind::External),
            "app/demo/shine.toml",
            content,
        )
        .file("app/demo/a", b"x".to_vec())
        .file("app/demo/gen.ts", b"x".to_vec());
        if let Some(package) = package {
            builder = builder.file("app/demo/package.json", package.as_bytes().to_vec());
        }
        if lock {
            builder = builder.file("app/demo/bun.lock", b"x".to_vec());
        }
        let runtime = CoreRuntime::new(context(RuntimePlatform::Linux), builder.build());
        match runtime.validate_app_category_snapshot("demo") {
            Ok(_) => Ok(runtime.bun_dependency_arg("app/demo/gen.ts").unwrap()),
            Err(error) => Err(error.code),
        }
    };
    assert_eq!(check(None, false), Ok("--no-install".to_string()));
    assert_eq!(check(Some("{}"), false), Err(MetadataCode::BunLockIncomplete));
    assert_eq!(check(None, true), Err(MetadataCode::BunLockIncomplete));
    assert_eq!(check(Some("{"), true), Err(MetadataCode::BunPackageInvalid));
    assert_eq!(
        check(Some("{\"trustedDependencies\": []}"), true),
        Err(MetadataCode::BunTrustedDependencies)
    );
    assert_eq!(check(Some("{\"name\": \"demo\"}"), true), Ok("--install=fallback".to_string()));
    assert_eq!(check(Some("[1]"), true), Ok("--install=fallback".to_string()));
    let embedded = PresetSnapshot::builder(PresetSourceKind::Embedded)
        .file("app/demo/gen.ts", b"x".to_vec())
        .build();
    let runtime = CoreRuntime::new(context(RuntimePlatform::Linux), embedded);
    assert_eq!(runtime.bun_dependency_arg("app/demo/gen.ts").unwrap(), "--no-install");
    assert_eq!(
        runtime.bun_dependency_arg("app/demo/none.ts").unwrap_err().code,
        MetadataCode::BunScriptMissing
    );
}

#[test]
fn expanded_destinations_are_absolute_and_lead_nowhere_up() {
    let runtime = runtime_of(RuntimePlatform::Linux, "dest = \"/etc/demo\"\n", &["app/demo/a"]);
    let mut categories = runtime.app_categories(None).unwrap();
    let category = &mut categories[0];
    let mut file = category.files[0].clone();
    file.target_rel = "../a".to_string();
    assert_eq!(
        runtime.app_destination(category, &file).unwrap_err().code,
        MetadataCode::ExpandedHasParent
    );
    category.destination_root = Some("relative".to_string());
    assert_eq!(
        runtime.app_destination(category, &file).unwrap_err().code,
        MetadataCode::ExpandedNotAbsolute
    );
    file.target_rel = "a".to_string();
    category.destination_root = Some("$HOME/x".to_string());
    assert_eq!(runtime.app_destination(category, &file).unwrap(), "/home/me/x/a");
    file.destination_root = Some(AppDestinationRoot::DataDir("inner".to_string()));
    assert_eq!(
        runtime.app_destination(category, &file).unwrap(),
        "/home/me/.local/share/inner/a"
    );
}

fn windows_runtime(content: &str) -> CoreRuntime {
    let builder = with_metadata(
        PresetSnapshot::builder(PresetSourceKind::External),
        "app/demo/shine.toml",
        content,
    )
    .file("app/demo/sub/config", b"content".to_vec());
    let mut context = RuntimeContext::isolated(
        "C:\\Users\\me",
        "C:\\Users\\me\\.shine",
        "C:\\presets",
        "C:\\bin",
        RuntimePlatform::Windows,
    );
    context.is_external_presets = true;
    CoreRuntime::new(context, builder.build())
}

#[test]
fn destinations_on_windows_start_at_drives_and_shares() {
    let place = |dest: &str| {
        let content =
            format!("dest = '{dest}'\n[[files]]\nsource = 'sub\\config'\ntarget = 'config'\n");
        let runtime = windows_runtime(&content);
        let categories = runtime.app_categories(Some("demo"))?;
        let file = &categories[0].files[0];
        assert_eq!(runtime.app_source_bytes("demo", file).unwrap(), b"content");
        runtime.app_destination(&categories[0], file)
    };
    assert_eq!(place("~/.config/demo").unwrap(), "C:\\Users\\me\\.config/demo\\config");
    assert_eq!(place("C:\\Apps\\demo").unwrap(), "C:\\Apps\\demo\\config");
    assert_eq!(place("D:/Apps").unwrap(), "D:/Apps\\config");
    assert_eq!(place("\\\\host\\share").unwrap(), "\\\\host\\share\\config");
    assert_eq!(place("/etc/demo").unwrap_err().code, MetadataCode::DestinationNotAbsolute);
    assert_eq!(place("C:\\a\\..\\b").unwrap_err().code, MetadataCode::DestinationHasParent);
}

#[test]
fn relative_paths_on_windows_lead_nowhere_up() {
    let fault = |source: &str| {
        let content = format!("dest = '~/demo'\n[[files]]\nsource = '{source}'\n");
        let error = windows_runtime(&content).app_categories(Some("demo")).unwrap_err();
        (error.code, error.detail)
    };
    let invalid = MetadataCode::SourceInvalid;
    assert_eq!(fault("..\\..\\x"), (invalid, "path must not contain '..'".to_string()));
    assert_eq!(fault("C:\\x"), (invalid, "path must be relative".to_string()));
    let mut runtime = windows_runtime("dest = '~/demo'\n[[files]]\nsource = 'sub/config'\n");
    let mut categories = runtime.app_categories(Some("demo")).unwrap();
    categories[0].files[0].target_rel = "..\\config".to_string();
    let category = &categories[0];
    assert_eq!(
        runtime.app_destination(category, &category.files[0]).unwrap_err().code,
        MetadataCode::ExpandedHasParent
    );
    runtime.context.home_dir = "/home/me".to_string();
    categories[0].files[0].target_rel = "config".to_string();
    assert_eq!(
        runtime.app_destination(&categories[0], &categories[0].files[0]).unwrap(),
        "/home/me/demo/config"
    );
}
