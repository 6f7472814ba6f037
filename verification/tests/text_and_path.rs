//! Texts, paths and names.

use shine_core::content::hash_content;
use shine_core::env::{parse_env_specs, validate_env_key};
use shine_core::lexical::{
    contains_text, lines, replace_char, substitute, to_ascii_lowercase, trim,
};
use shine_core::path::{
    absolute, components, extension, file_name, join, logical_path, logical_path_on, parent, parts,
    paths_match, paths_match_on, strip_root, written_style, PathStyle,
};
use shine_core::sorted::{is_less, sorted};
use shine_core::text::{decimal, signed_decimal, split_once};
use std::path::Path;

#[test]
fn paths_are_the_same_by_their_components() {
    assert!(paths_match("/a//b/./c/", "/a/b/c"));
    assert!(!paths_match("./a", "a"));
    assert!(!paths_match("/a", "a"));
    assert_eq!(components("/a/../b"), vec!["/", "a", "..", "b"]);
    for path in ["/a/b", "a//b", "./a", "a/./b/", "", ".", "/", "..", "a/.."] {
        let expected: Vec<String> = Path::new(path)
            .components()
            .map(|part| part.as_os_str().to_str().unwrap().to_string())
            .collect();
        assert_eq!(components(path), expected, "{path}");
    }
}

#[test]
fn parts_of_paths_are_those_of_the_standard_library() {
    for path in
        ["/a/b", "a//b/c", "/a", "/", "", "a", "./a", "a/./b", "a/b/.", "a/..", "..", "a//", "//a"]
    {
        let std_path = Path::new(path);
        let text = |part: &Path| part.to_str().unwrap().to_string();
        assert_eq!(parent(path), std_path.parent().map(text), "{path}");
        assert_eq!(
            file_name(path),
            std_path.file_name().map(|name| name.to_str().unwrap().to_string()),
            "{path}"
        );
    }
    for path in ["a.ts", ".bashrc", "a.b/c", "a.", "a/.b.c", "..", "a.tar.gz", "/"] {
        assert_eq!(
            extension(path),
            Path::new(path).extension().map(|name| name.to_str().unwrap().to_string()),
            "{path}"
        );
    }
    for (base, rest) in [("/a", "b"), ("/a/", "b"), ("/a", "/b"), ("", "b"), ("/a", "")] {
        assert_eq!(join(base, rest), Path::new(base).join(rest).to_str().unwrap());
    }
    assert_eq!(logical_path("a//b/./c"), "a/b/c");
    assert_eq!(strip_root("/a/b/c", "/a").unwrap(), vec!["b", "c"]);
    assert!(strip_root("/ab", "/a").is_none());
}

#[test]
fn files_beside_another_are_other_paths() {
    for path in ["/a/b", "/a/b/", "/a/.", "/", "", "C:\\a\\b", "C:\\", "\\\\host\\share", "C:"] {
        let backup = format!("{path}.shine-backup");
        let rollback = format!("{path}.shine-rollback");
        assert!(!paths_match(&backup, path), "{path}");
        assert!(!paths_match(&rollback, path), "{path}");
        assert!(!paths_match(&backup, &rollback), "{path}");
    }
}

#[test]
fn paths_of_windows_have_drives_shares_and_two_separators() {
    assert_eq!(components("c:\\Users/me\\x"), vec!["C:", "\\", "Users", "me", "x"]);
    assert!(paths_match("C:\\a\\b", "C:/a/b"));
    assert!(paths_match("c:\\a\\.\\b\\", "C:\\a\\b"));
    assert!(!paths_match("C:\\a", "D:\\a"));
    assert!(paths_match("\\\\host\\share\\a", "\\\\host/share/a"));
    assert!(!paths_match("/a\\b", "/a/b"));
    assert_eq!(written_style("C:\\a"), PathStyle::Windows);
    assert_eq!(written_style("/a"), PathStyle::Unix);
    for (path, on_unix, on_windows) in [
        ("/a", true, false),
        ("C:\\a", false, true),
        ("C:/a", false, true),
        ("C:a", false, false),
        ("\\\\host\\share", false, true),
        ("//host/share", true, true),
        ("\\a", false, false),
        ("a", false, false),
    ] {
        assert_eq!(absolute(path, PathStyle::Unix), on_unix, "{path}");
        assert_eq!(absolute(path, PathStyle::Windows), on_windows, "{path}");
    }
    assert_eq!(join("C:\\Users\\me", ".config/demo"), "C:\\Users\\me\\.config/demo");
    assert_eq!(join("C:\\", "a"), "C:\\a");
    assert_eq!(join("C:\\a", "D:\\b"), "D:\\b");
    assert_eq!(join("C:\\a", "\\b"), "C:\\b");
    assert_eq!(join("\\\\host\\share\\a", "\\b"), "\\\\host\\share\\b");
    assert_eq!(parts("..\\x", PathStyle::Windows), vec!["..", "x"]);
    assert_eq!(parts("..\\x", PathStyle::Unix), vec!["..\\x"]);
    assert_eq!(parts("C:..", PathStyle::Windows), vec!["C:", ".."]);
    assert!(paths_match_on("sub\\a", "sub/a", PathStyle::Windows));
    assert!(!paths_match_on("sub\\a", "sub/a", PathStyle::Unix));
    assert_eq!(logical_path_on("sub\\a", PathStyle::Windows), "sub/a");
    assert_eq!(file_name("C:\\a\\b.txt").as_deref(), Some("b.txt"));
    assert_eq!(file_name("C:\\"), None);
    assert_eq!(parent("C:\\a\\b").as_deref(), Some("C:\\a"));
    assert_eq!(parent("C:\\a").as_deref(), Some("C:\\"));
    assert_eq!(parent("C:\\"), None);
    assert_eq!(extension("C:\\a.b\\c.ts").as_deref(), Some("ts"));
    assert_eq!(strip_root("C:\\a\\b", "c:/a").unwrap(), vec!["b"]);
}

#[test]
fn texts_are_cut_and_trimmed_as_the_standard_library_does() {
    for text in ["", " a ", "\t\u{a0}x y\u{3000}", "\u{200b}z", "a\n", "\u{85}"] {
        assert_eq!(trim(text), text.trim());
    }
    for text in ["", "a", "a\n", "a\r\nb", "a\rb\n\nc\r", "\n"] {
        assert_eq!(lines(text), text.lines().collect::<Vec<_>>(), "{text:?}");
    }
    assert_eq!(to_ascii_lowercase("AbZ\u{c4}"), "abz\u{c4}");
    assert_eq!(replace_char("a\\b\\", '\\', '/'), "a/b/");
    for (text, pattern, with) in
        [("aaa", "aa", "b"), ("abab", "ab", ""), ("", "x", "y"), ("xx", "x", "xx")]
    {
        assert_eq!(substitute(text, pattern, with), text.replace(pattern, with));
    }
    assert!(contains_text("a${b", "${"));
    assert!(!contains_text("a$ {b", "${"));
    assert!(contains_text("abc", ""));
    assert_eq!(split_once("a:b:c", ':'), Some(("a".to_string(), "b:c".to_string())));
    assert_eq!(split_once("abc", ':'), None);
}

#[test]
fn numbers_are_written_in_decimal() {
    for n in [0, 9, 10, 1234567890123456789, u64::MAX] {
        assert_eq!(decimal(n), n.to_string());
    }
    for n in [0, -1, 7, i32::MIN, i32::MAX] {
        assert_eq!(signed_decimal(n), n.to_string());
    }
}

#[test]
fn texts_are_ordered_as_the_standard_library_does() {
    let list = ["b", "", "a", "ab", "\u{10000}", "\u{ffff}", "a"];
    let mut expected: Vec<String> = list.iter().map(|text| text.to_string()).collect();
    expected.sort();
    expected.dedup();
    assert_eq!(sorted(list.iter().map(|text| text.to_string()).collect()), expected);
    assert!(is_less("a", "b") && !is_less("b", "a") && !is_less("a", "a"));
}

#[test]
fn names_of_variables_are_checked() {
    for name in ["A", "_a1", "PATH"] {
        assert!(validate_env_key(name));
    }
    for name in ["", "1A", "A-B", "A B", "\u{c4}"] {
        assert!(!validate_env_key(name));
    }
    let list = vec!["A".to_string(), "B:C".to_string()];
    let specs = parse_env_specs(&list).unwrap();
    assert_eq!((specs[0].source.as_str(), specs[0].target.as_str()), ("A", "A"));
    assert_eq!((specs[1].source.as_str(), specs[1].target.as_str()), ("B", "C"));
    assert_eq!(parse_env_specs(&vec!["A:".to_string()]).unwrap_err(), "A:");
}

#[test]
fn content_is_known_by_its_hash() {
    assert_eq!(hash_content(b""), 0xcbf29ce484222325);
    assert_eq!(hash_content(b"a"), 0xaf63dc4c8601ec8c);
    assert_ne!(hash_content(b"ab"), hash_content(b"ba"));
}
