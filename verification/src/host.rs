//! What a host reports of its files and processes.

use vstd::prelude::*;
use vstd::string::*;

use crate::context::{env_pairs, EnvValue};
use crate::plan::optional_text;
use crate::text::{joined, texts};

verus! {

#[derive(Clone, Copy, Debug, PartialEq, Eq, Structural)]
pub enum FileKind {
    File,
    Directory,
    Symlink,
}

impl FileKind {
    pub open spec fn text(self) -> Seq<char> {
        match self {
            FileKind::File => "File"@,
            FileKind::Directory => "Directory"@,
            FileKind::Symlink => "Symlink"@,
        }
    }

    /// The name of the kind.
    pub fn as_str(self) -> (name: &'static str)
        ensures
            name@ == self.text(),
    {
        match self {
            FileKind::File => "File",
            FileKind::Directory => "Directory",
            FileKind::Symlink => "Symlink",
        }
    }
}

#[derive(Clone, Copy, Debug, PartialEq, Eq, Structural)]
pub struct FileMetadata {
    pub kind: FileKind,
    pub len: u64,
    pub unix_mode: Option<u32>,
}

/// Why a host operation failed, as far as the logic tells failures apart.
#[derive(Clone, Copy, Debug, PartialEq, Eq, Structural)]
pub enum HostErrorKind {
    NotFound,
    NotADirectory,
    Other,
}

/// A failure that a host reports.
#[derive(Debug)]
pub struct HostError {
    kind: HostErrorKind,
    message: String,
}

/// A failure with the context in which it came up.
#[derive(Debug)]
pub struct ContextError {
    pub context: String,
    pub cause: String,
}

impl HostError {
    pub closed spec fn spec_kind(&self) -> HostErrorKind {
        self.kind
    }

    pub closed spec fn spec_message(&self) -> Seq<char> {
        self.message@
    }

    pub fn new(kind: HostErrorKind, message: String) -> (error: HostError)
        ensures
            error.spec_kind() == kind,
            error.spec_message() == message@,
    {
        HostError { kind, message }
    }

    /// A failure of the operating system, by its kind and its text.
    pub fn io(kind: HostErrorKind, message: &str) -> (error: HostError)
        ensures
            error.spec_kind() == kind,
            error.spec_message() == message@,
    {
        HostError::new(kind, message.to_owned())
    }

    pub fn is_not_found(&self) -> (result: bool)
        ensures
            result == (self.spec_kind() == HostErrorKind::NotFound),
    {
        self.kind == HostErrorKind::NotFound
    }

    pub fn is_not_directory(&self) -> (result: bool)
        ensures
            result == (self.spec_kind() == HostErrorKind::NotADirectory),
    {
        self.kind == HostErrorKind::NotADirectory
    }

    /// The failure under the context in which it came up.
    pub fn into_anyhow(self, context: &str) -> (error: ContextError)
        ensures
            error.context@ == context@,
            error.cause@ == self.spec_message(),
    {
        ContextError { context: context.to_owned(), cause: self.message }
    }
}

/// How the streams of a process are connected.
#[derive(Clone, Copy, Debug, PartialEq, Eq, Structural)]
pub enum ProcessIo {
    Captured,
    Inherit,
}

/// A process to be run.
#[derive(Clone, Debug)]
pub struct ProcessRequest {
    pub program: String,
    pub args: Vec<String>,
    pub cwd: Option<String>,
    pub env: Vec<EnvValue>,
    pub stdin: Vec<u8>,
    pub inherit_stdin: bool,
    pub timeout_seconds: Option<u64>,
    pub io: ProcessIo,
    pub stdout_limit: Option<usize>,
    pub stderr_limit: Option<usize>,
}

/// A process to be run, by the values of the request.
pub ghost struct ProcessRequestView {
    pub program: Seq<char>,
    pub args: Seq<Seq<char>>,
    pub cwd: Option<Seq<char>>,
    pub env: Seq<(Seq<char>, Seq<char>)>,
    pub stdin: Seq<u8>,
    pub inherit_stdin: bool,
    pub timeout_seconds: Option<u64>,
    pub io: ProcessIo,
    pub stdout_limit: Option<usize>,
    pub stderr_limit: Option<usize>,
}

impl View for ProcessRequest {
    type V = ProcessRequestView;

    open spec fn view(&self) -> ProcessRequestView {
        ProcessRequestView {
            program: self.program@,
            args: texts(self.args@),
            cwd: optional_text(self.cwd),
            env: env_pairs(self.env@),
            stdin: self.stdin@,
            inherit_stdin: self.inherit_stdin,
            timeout_seconds: self.timeout_seconds,
            io: self.io,
            stdout_limit: self.stdout_limit,
            stderr_limit: self.stderr_limit,
        }
    }
}

/// A process with captured streams, no input and no limits.
pub open spec fn captured_process(
    program: Seq<char>,
    args: Seq<Seq<char>>,
    cwd: Option<Seq<char>>,
    env: Seq<(Seq<char>, Seq<char>)>,
) -> ProcessRequestView {
    ProcessRequestView {
        program,
        args,
        cwd,
        env,
        stdin: Seq::empty(),
        inherit_stdin: false,
        timeout_seconds: None,
        io: ProcessIo::Captured,
        stdout_limit: None,
        stderr_limit: None,
    }
}

/// The views of a list of requests.
pub open spec fn process_views(requests: Seq<ProcessRequest>) -> Seq<ProcessRequestView> {
    requests.map_values(|request: ProcessRequest| request@)
}

impl ProcessRequest {
    /// A process with captured streams, no input and no limits.
    pub fn captured(
        program: String,
        args: Vec<String>,
        cwd: Option<String>,
        env: Vec<EnvValue>,
    ) -> (request: ProcessRequest)
        ensures
            request@ == captured_process(
                program@,
                texts(args@),
                optional_text(cwd),
                env_pairs(env@),
            ),
    {
        let request = ProcessRequest {
            program,
            args,
            cwd,
            env,
            stdin: Vec::new(),
            inherit_stdin: false,
            timeout_seconds: None,
            io: ProcessIo::Captured,
            stdout_limit: None,
            stderr_limit: None,
        };
        proof {
            assert(request.stdin@ =~= Seq::<u8>::empty());
        }
        request
    }
}

/// What a process left behind; no exit code where a signal ended it.
#[derive(Clone, Debug)]
pub struct ProcessOutput {
    pub exit_code: Option<i32>,
    pub stdout: Vec<u8>,
    pub stderr: Vec<u8>,
}

/// Why a stream of a process is refused.
pub open spec fn output_limit_text(stream: Seq<char>) -> Seq<char> {
    "process "@ + stream + " exceeded configured limit"@
}

/// Accepts what a process wrote to a stream, unless it is over the limit.
pub fn enforce_output_limit(output: Vec<u8>, limit: Option<usize>, stream: &str) -> (result: Result<
    Vec<u8>,
    String,
>)
    ensures
        if limit is Some && output@.len() > limit->0 {
            result is Err && result->Err_0@ == output_limit_text(stream@)
        } else {
            result is Ok && result->Ok_0 == output
        },
{
    if let Some(limit) = limit {
        if output.len() > limit {
            let mut message = joined("process ", stream);
            message.append(" exceeded configured limit");
            return Err(message);
        }
    }
    Ok(output)
}

/// One thing that a host was asked to do.
#[derive(Clone, Debug)]
pub enum HostOperation {
    AcquirePrivilegedOperation,
    WritePrivileged(String),
    SetModePrivileged { path: String, mode: u32 },
    MovePrivileged { from: String, to: String },
    RemovePrivileged(String),
    Read(String),
    Write(String),
    CreateDirectory(String),
    Remove(String),
    RemoveDirectory(String),
    SetExecutable(String),
    SetMode { path: String, mode: u32 },
    CreateSymlink { link: String, target: String },
    Run { program: String, args: Vec<String> },
    InspectSplitDns { domain: String },
    ApplySplitDns { domain: String },
    RemoveSplitDns { domain: String },
    Confirm { code: String },
    AuthorizeAdmin { item_count: usize },
}

/// What a runtime tells while it works.
#[allow(inconsistent_fields)]
#[derive(Clone, Debug)]
pub enum RuntimeEvent {
    Section { domain: String },
    Progress { code: String, target: String },
    Warning { code: String, target: Option<String>, detail: String },
    ProcessOutput { code: String, target: String, stream: String, text: String },
    Interaction { code: String, target: String },
    SysBootstrapSelection {
        os_id: String,
        shell: String,
        item_ids: Vec<String>,
        item_labels: Vec<(String, String)>,
        source: String,
    },
    SysBootstrapOutcome { item_id: String, outcome: String },
    SysBootstrapItemStart { item_id: String, label: String, requires_admin: bool },
}

/// An event by the characters it holds.
#[allow(inconsistent_fields)]
pub ghost enum RuntimeEventView {
    Progress { code: Seq<char>, target: Seq<char> },
    Warning { code: Seq<char>, target: Option<Seq<char>>, detail: Seq<char> },
    ProcessOutput { code: Seq<char>, target: Seq<char>, stream: Seq<char>, text: Seq<char> },
    Other,
}

impl View for RuntimeEvent {
    type V = RuntimeEventView;

    open spec fn view(&self) -> RuntimeEventView {
        match *self {
            RuntimeEvent::Progress { code, target } => RuntimeEventView::Progress {
                code: code@,
                target: target@,
            },
            RuntimeEvent::Warning { code, target, detail } => RuntimeEventView::Warning {
                code: code@,
                target: optional_text(target),
                detail: detail@,
            },
            RuntimeEvent::ProcessOutput { code, target, stream, text } =>
                RuntimeEventView::ProcessOutput {
                code: code@,
                target: target@,
                stream: stream@,
                text: text@,
            },
            _ => RuntimeEventView::Other,
        }
    }
}

/// The views of a list of events.
pub open spec fn event_views(events: Seq<RuntimeEvent>) -> Seq<RuntimeEventView> {
    events.map_values(|event: RuntimeEvent| event@)
}

/// A warning.
pub fn warning_event(code: &str, target: &str, detail: String) -> (event: RuntimeEvent)
    ensures
        event@ == (RuntimeEventView::Warning {
            code: code@,
            target: Some(target@),
            detail: detail@,
        }),
{
    RuntimeEvent::Warning { code: code.to_owned(), target: Some(target.to_owned()), detail }
}

/// Someone who is told what a runtime does.
pub trait RuntimeObserver {
    fn emit(&mut self, event: RuntimeEvent);
}

/// An observer that ignores what it is told.
#[derive(Clone, Copy, Debug)]
pub struct NullObserver;

impl RuntimeObserver for NullObserver {
    fn emit(&mut self, _event: RuntimeEvent) {
    }
}

} // verus!
