//! Finding the commands that a host can run.

use vstd::prelude::*;
use vstd::string::*;

use crate::context::{RuntimeContext, RuntimePlatform};
use crate::host::{FileKind, FileMetadata, HostError, HostErrorKind};
use crate::path::{join, path_join};
use crate::text::{copy_texts, joined, push_text, texts};

verus! {

/// The file that a candidate leads to.
#[derive(Clone, Debug)]
pub struct ResolvedCommandCandidate {
    pub path: String,
    pub metadata: FileMetadata,
}

/// What was found where a command may stand.
#[derive(Clone, Debug)]
pub struct CommandCandidateObservation {
    pub source: Option<FileMetadata>,
    pub resolved: Option<ResolvedCommandCandidate>,
}

/// What was found where a command may stand, by the values.
pub ghost struct CandidateView {
    pub source: Option<FileMetadata>,
    pub resolved: Option<(Seq<char>, FileMetadata)>,
}

impl View for CommandCandidateObservation {
    type V = CandidateView;

    open spec fn view(&self) -> CandidateView {
        CandidateView {
            source: self.source,
            resolved: match self.resolved {
                Some(resolved) => Some((resolved.path@, resolved.metadata)),
                None => None,
            },
        }
    }
}

impl CandidateView {
    /// Whether a platform can run what was found: a regular file that has, where
    /// modes count, one of its execute bits.
    pub open spec fn executable(self, platform: RuntimePlatform) -> bool {
        match self.resolved {
            Some((_, metadata)) => metadata.kind == FileKind::File && (platform
                == RuntimePlatform::Windows || match metadata.unix_mode {
                Some(mode) => mode & 0o111u32 != 0,
                None => true,
            }),
            None => false,
        }
    }
}

impl CommandCandidateObservation {
    /// Whether the platform can run what was found.
    pub fn is_executable(&self, platform: RuntimePlatform) -> (result: bool)
        ensures
            result == self@.executable(platform),
    {
        match &self.resolved {
            Some(resolved) => {
                let runs = match resolved.metadata.unix_mode {
                    Some(mode) => mode & 0o111u32 != 0,
                    None => true,
                };
                resolved.metadata.kind == FileKind::File && (platform == RuntimePlatform::Windows
                    || runs)
            },
            None => false,
        }
    }
}

/// What is asked of the host next.
#[derive(Debug)]
pub enum CandidateStep {
    /// The observation is complete.
    Done(CommandCandidateObservation),
    /// A link has to be followed.
    Follow { source: FileMetadata },
    /// The file at the path has to be looked at.
    Inspect { source: FileMetadata, path: String },
    Failed(HostError),
}

/// What was found where there is nothing, or a link to nothing.
pub open spec fn unresolved(source: Option<FileMetadata>) -> CandidateView {
    CandidateView { source, resolved: None }
}

/// The first step: what stands at the path itself.
pub fn observe_source(path: &str, result: Result<FileMetadata, HostError>) -> (step: CandidateStep)
    ensures
        match result {
            Ok(metadata) => if metadata.kind == FileKind::Symlink {
                step == (CandidateStep::Follow { source: metadata })
            } else {
                step is Inspect && step->Inspect_source == metadata && step->path@ == path@
            },
            Err(error) => if error.spec_kind() == HostErrorKind::NotFound {
                step is Done && step->Done_0@ == unresolved(None)
            } else {
                step == CandidateStep::Failed(error)
            },
        },
{
    match result {
        Ok(metadata) => if metadata.kind == FileKind::Symlink {
            CandidateStep::Follow { source: metadata }
        } else {
            CandidateStep::Inspect { source: metadata, path: path.to_owned() }
        },
        Err(error) => if error.is_not_found() {
            CandidateStep::Done(CommandCandidateObservation { source: None, resolved: None })
        } else {
            CandidateStep::Failed(error)
        },
    }
}

/// The second step, where the path is a link: what it leads to.
pub fn observe_link(source: FileMetadata, result: Result<String, HostError>) -> (step:
    CandidateStep)
    ensures
        match result {
            Ok(path) => step == (CandidateStep::Inspect { source, path }),
            Err(error) => if error.spec_kind() == HostErrorKind::NotFound {
                step is Done && step->Done_0@ == unresolved(Some(source))
            } else {
                step == CandidateStep::Failed(error)
            },
        },
{
    match result {
        Ok(path) => CandidateStep::Inspect { source, path },
        Err(error) => if error.is_not_found() {
            CandidateStep::Done(
                CommandCandidateObservation { source: Some(source), resolved: None },
            )
        } else {
            CandidateStep::Failed(error)
        },
    }
}

/// The last step: the file that the candidate leads to.
pub fn observe_resolved(
    source: FileMetadata,
    path: String,
    result: Result<FileMetadata, HostError>,
) -> (step: Result<CommandCandidateObservation, HostError>)
    ensures
        match result {
            Ok(metadata) => step is Ok && step->Ok_0@ == (CandidateView {
                source: Some(source),
                resolved: Some((path@, metadata)),
            }),
            Err(error) => if error.spec_kind() == HostErrorKind::NotFound {
                step is Ok && step->Ok_0@ == unresolved(Some(source))
            } else {
                step == Err::<CommandCandidateObservation, HostError>(error)
            },
        },
{
    match result {
        Ok(metadata) => Ok(
            CommandCandidateObservation {
                source: Some(source),
                resolved: Some(ResolvedCommandCandidate { path, metadata }),
            },
        ),
        Err(error) => if error.is_not_found() {
            Ok(CommandCandidateObservation { source: Some(source), resolved: None })
        } else {
            Err(error)
        },
    }
}

/// Where commands stand beside the search path.
pub open spec fn known_directories(home: Seq<char>) -> Seq<Seq<char>> {
    seq![
        path_join(home, ".local/bin"@),
        path_join(home, ".cargo/bin"@),
        path_join(home, ".bun/bin"@),
        path_join(home, ".local/share/pnpm"@),
        path_join(home, "AppData/Local/Microsoft/WinGet/Links"@),
        "/opt/homebrew/bin"@,
        "/usr/local/bin"@,
        "/home/linuxbrew/.linuxbrew/bin"@,
    ]
}

/// The files in a directory that a command may be.
pub open spec fn candidates_in(
    directory: Seq<char>,
    command: Seq<char>,
    platform: RuntimePlatform,
) -> Seq<Seq<char>> {
    if platform == RuntimePlatform::Windows {
        seq![
            path_join(directory, command),
            path_join(directory, command + ".exe"@),
            path_join(directory, command + ".cmd"@),
            path_join(directory, command + ".bat"@),
            path_join(directory, command + ".ps1"@),
        ]
    } else {
        seq![path_join(directory, command)]
    }
}

/// The files in the directories that a command may be, directory by directory.
pub open spec fn candidates_of(
    directories: Seq<Seq<char>>,
    command: Seq<char>,
    platform: RuntimePlatform,
) -> Seq<Seq<char>>
    decreases directories.len(),
{
    if directories.len() == 0 {
        Seq::empty()
    } else {
        candidates_of(directories.drop_last(), command, platform) + candidates_in(
            directories.last(),
            command,
            platform,
        )
    }
}

fn push_candidate(list: &mut Vec<String>, directory: &str, command: &str, suffix: &str)
    ensures
        texts(final(list)@) == texts(old(list)@).push(path_join(directory@, command@ + suffix@)),
{
    let name = joined(command, suffix);
    let path = join(directory, name.as_str());
    push_text(list, path.as_str());
}

fn push_known_directories(list: &mut Vec<String>, home: &str)
    ensures
        texts(final(list)@) == texts(old(list)@) + known_directories(home@),
{
    let ghost before = texts(list@);
    push_text(list, join(home, ".local/bin").as_str());
    push_text(list, join(home, ".cargo/bin").as_str());
    push_text(list, join(home, ".bun/bin").as_str());
    push_text(list, join(home, ".local/share/pnpm").as_str());
    push_text(list, join(home, "AppData/Local/Microsoft/WinGet/Links").as_str());
    push_text(list, "/opt/homebrew/bin");
    push_text(list, "/usr/local/bin");
    push_text(list, "/home/linuxbrew/.linuxbrew/bin");
    proof {
        assert(texts(list@) =~= before + known_directories(home@));
    }
}

/// Where the command may stand: in the directories of the search path first, then
/// in the known ones.
pub fn command_candidates(context: &RuntimeContext, search_path: &Vec<String>, command: &str) -> (
    list: Vec<String>)
    ensures
        texts(list@) == candidates_of(
            texts(search_path@) + known_directories(context.home_dir@),
            command@,
            context.platform,
        ),
{
    let mut directories = copy_texts(search_path.as_slice());
    push_known_directories(&mut directories, context.home_dir.as_str());
    let windows = context.platform == RuntimePlatform::Windows;
    let ghost all = texts(directories@);
    let mut list: Vec<String> = Vec::new();
    let mut i: usize = 0;
    proof {
        assert(all.take(0) =~= Seq::<Seq<char>>::empty());
        assert(texts(list@) =~= Seq::<Seq<char>>::empty());
        reveal_strlit("");
        assert(command@ + ""@ =~= command@);
    }
    while i < directories.len()
        invariant
            i <= directories.len(),
            all == texts(directories@),
            windows == (context.platform == RuntimePlatform::Windows),
            command@ + ""@ == command@,
            texts(list@) == candidates_of(all.take(i as int), command@, context.platform),
        decreases directories.len() - i,
    {
        let directory = &directories[i];
        let ghost before = texts(list@);
        proof {
            assert(all.take(i as int + 1).drop_last() =~= all.take(i as int));
            assert(all.take(i as int + 1).last() == directory@);
        }
        push_candidate(&mut list, directory.as_str(), command, "");
        if windows {
            push_candidate(&mut list, directory.as_str(), command, ".exe");
            push_candidate(&mut list, directory.as_str(), command, ".cmd");
            push_candidate(&mut list, directory.as_str(), command, ".bat");
            push_candidate(&mut list, directory.as_str(), command, ".ps1");
        }
        proof {
            assert(texts(list@) =~= before + candidates_in(
                directory@,
                command@,
                context.platform,
            ));
        }
        i += 1;
    }
    proof {
        assert(all.take(all.len() as int) =~= all);
    }
    list
}

/// A link that leads nowhere is no command on any platform.
pub proof fn law_broken_link_is_no_command(source: FileMetadata, platform: RuntimePlatform)
    ensures
        !unresolved(Some(source)).executable(platform),
{
}

} // verus!
