//! Which files are commands.

use shine_core::command_detection::{
    command_candidates, observe_link, observe_resolved, observe_source, CandidateStep,
    CommandCandidateObservation,
};
use shine_core::context::{RuntimeContext, RuntimePlatform};
use shine_core::host::{FileKind, FileMetadata, HostError, HostErrorKind};
use std::collections::BTreeMap;

#[derive(Clone)]
enum Entry {
    File { mode: u32 },
    Link { target: &'static str },
}

type Host = BTreeMap<&'static str, Entry>;

fn not_found() -> HostError {
    HostError::new(HostErrorKind::NotFound, "not found".to_string())
}

fn metadata(host: &Host, path: &str) -> Result<FileMetadata, HostError> {
    match host.get(path) {
        None => Err(not_found()),
        Some(Entry::File { mode }) => {
            Ok(FileMetadata { kind: FileKind::File, len: 6, unix_mode: Some(*mode) })
        }
        Some(Entry::Link { .. }) => {
            Ok(FileMetadata { kind: FileKind::Symlink, len: 0, unix_mode: None })
        }
    }
}

fn canonicalize(host: &Host, path: &str) -> Result<String, HostError> {
    match host.get(path) {
        Some(Entry::Link { target }) => canonicalize(host, target),
        Some(Entry::File { .. }) => Ok(path.to_string()),
        None => Err(not_found()),
    }
}

fn observe_command_candidate(
    host: &Host,
    path: &str,
) -> Result<CommandCandidateObservation, HostError> {
    let mut step = observe_source(path, metadata(host, path));
    loop {
        step = match step {
            CandidateStep::Done(observation) => return Ok(observation),
            CandidateStep::Failed(error) => return Err(error),
            CandidateStep::Follow { source } => observe_link(source, canonicalize(host, path)),
            CandidateStep::Inspect { source, path } => {
                let found = metadata(host, &path);
                return observe_resolved(source, path, found);
            }
        };
    }
}

#[test]
fn executable_symlink_resolves_to_its_target() {
    let mut host = Host::new();
    host.insert("/usr/bin/batcat", Entry::File { mode: 0o100755 });
    host.insert("/home/test/.local/bin/bat", Entry::Link { target: "/usr/bin/batcat" });

    let observation = observe_command_candidate(&host, "/home/test/.local/bin/bat").unwrap();

    assert_eq!(
        observation.source.as_ref().map(|metadata| metadata.kind),
        Some(FileKind::Symlink)
    );
    assert_eq!(
        observation.resolved.as_ref().map(|resolved| resolved.path.as_str()),
        Some("/usr/bin/batcat")
    );
    assert!(observation.is_executable(RuntimePlatform::Linux));
}

#[test]
fn broken_and_non_executable_symlinks_are_not_commands() {
    let mut host = Host::new();
    host.insert("/bin/broken", Entry::Link { target: "/missing" });
    host.insert("/bin/plain-target", Entry::File { mode: 0o100644 });
    host.insert("/bin/plain", Entry::Link { target: "/bin/plain-target" });

    let broken = observe_command_candidate(&host, "/bin/broken").unwrap();
    let plain = observe_command_candidate(&host, "/bin/plain").unwrap();

    assert!(broken.resolved.is_none());
    assert!(!broken.is_executable(RuntimePlatform::Linux));
    assert!(!plain.is_executable(RuntimePlatform::Linux));
}

#[test]
fn modes_do_not_count_on_windows() {
    let mut host = Host::new();
    host.insert("/bin/plain", Entry::File { mode: 0o100644 });
    let observation = observe_command_candidate(&host, "/bin/plain").unwrap();
    assert!(observation.is_executable(RuntimePlatform::Windows));
    assert!(!observation.is_executable(RuntimePlatform::Macos));
}

#[test]
fn what_cannot_be_looked_at_is_an_error() {
    let error = HostError::io(HostErrorKind::Other, "denied");
    match observe_source("/bin/tool", Err(error)) {
        CandidateStep::Failed(error) => {
            assert!(!error.is_not_found());
            let under = error.into_anyhow("looking for tool");
            assert_eq!(under.context, "looking for tool");
            assert_eq!(under.cause, "denied");
        }
        _ => panic!("expected a failure"),
    }
    match observe_source("/bin/tool", Err(HostError::io(HostErrorKind::NotADirectory, "file"))) {
        CandidateStep::Failed(error) => assert!(error.is_not_directory()),
        _ => panic!("expected a failure"),
    }
    match observe_source("/bin/tool", Err(not_found())) {
        CandidateStep::Done(observation) => assert!(observation.source.is_none()),
        _ => panic!("expected an observation"),
    }
}

fn context(platform: RuntimePlatform) -> RuntimeContext {
    RuntimeContext::isolated("/home/me", "/home/me/.shine", "/presets", "/bin", platform)
}

#[test]
fn candidates_follow_the_search_path_and_then_the_known_directories() {
    let search = vec!["/opt/tools".to_string(), "".to_string()];
    let list = command_candidates(&context(RuntimePlatform::Linux), &search, "bat");
    assert_eq!(
        list,
        vec![
            "/opt/tools/bat",
            "bat",
            "/home/me/.local/bin/bat",
            "/home/me/.cargo/bin/bat",
            "/home/me/.bun/bin/bat",
            "/home/me/.local/share/pnpm/bat",
            "/home/me/AppData/Local/Microsoft/WinGet/Links/bat",
            "/opt/homebrew/bin/bat",
            "/usr/local/bin/bat",
            "/home/linuxbrew/.linuxbrew/bin/bat",
        ]
    );
}

#[test]
fn windows_candidates_have_their_suffixes() {
    let search = vec!["/tools".to_string()];
    let list = command_candidates(&context(RuntimePlatform::Windows), &search, "bat");
    assert_eq!(list.len(), 9 * 5);
    assert_eq!(
        list[..5].to_vec(),
        vec!["/tools/bat", "/tools/bat.exe", "/tools/bat.cmd", "/tools/bat.bat", "/tools/bat.ps1"]
    );
}
