//! Supervision of the local model runtime: what to run in the host shell,
//! and how to read what came back as a status.
//!
//! Nothing here starts a process. The caller runs the command that
//! [`detect_command`] or [`serve_command`] describes and hands the outcome to
//! [`check_ollama_installed`] or [`start_ollama_server`].

use vstd::prelude::*;
use vstd::utf8::{decode_utf8, valid_utf8};
use crate::text::{contains, contains_text, join, opt_text};

verus! {

/// The phrase that the runtime's command-line client prints when no server
/// answers. It belongs to that client and is matched as it stands.
pub const NO_SERVER_MARKER: &'static str = "could not connect to a running Ollama instance";

/// What is known of the runtime after one detection or one start request.
#[derive(Debug, Clone, PartialEq, Eq)]
pub struct OllamaStatus {
    pub installed: bool,
    pub running: bool,
    pub error: Option<String>,
    pub path: Option<String>,
}

/// The mathematical value of an [`OllamaStatus`].
pub struct StatusView {
    pub installed: bool,
    pub running: bool,
    pub error: Option<Seq<char>>,
    pub path: Option<Seq<char>>,
}

impl View for OllamaStatus {
    type V = StatusView;

    open spec fn view(&self) -> StatusView {
        StatusView {
            installed: self.installed,
            running: self.running,
            error: opt_text(self.error),
            path: opt_text(self.path),
        }
    }
}

/// What a finished child process left on its two output streams.
#[derive(Debug, Clone, PartialEq, Eq)]
pub struct ProcessOutput {
    pub stdout: Vec<u8>,
    pub stderr: Vec<u8>,
}

/// One variable that a command finds set in its environment.
#[derive(Debug, Clone, PartialEq, Eq)]
pub struct EnvironmentVariable {
    pub name: String,
    pub value: String,
}

/// A command line for the host shell, `program flag script`, and what to
/// set in the environment of the process it starts.
#[derive(Debug, Clone, PartialEq, Eq)]
pub struct ShellCommand {
    pub program: String,
    pub flag: String,
    pub script: String,
    pub environment: Vec<EnvironmentVariable>,
}

/// The mathematical value of a [`ShellCommand`]. The environment is a
/// sequence of pairs, name first.
pub struct ShellCommandView {
    pub program: Seq<char>,
    pub flag: Seq<char>,
    pub script: Seq<char>,
    pub environment: Seq<(Seq<char>, Seq<char>)>,
}

/// The variables as pairs of name and value, in order.
pub open spec fn environment_view(variables: Seq<EnvironmentVariable>) -> Seq<
    (Seq<char>, Seq<char>),
> {
    Seq::new(variables.len(), |i: int| (variables[i].name@, variables[i].value@))
}

impl View for ShellCommand {
    type V = ShellCommandView;

    open spec fn view(&self) -> ShellCommandView {
        ShellCommandView {
            program: self.program@,
            flag: self.flag@,
            script: self.script@,
            environment: environment_view(self.environment@),
        }
    }
}

/// The shell and the flag under which it takes a script, per platform.
pub open spec fn shell_for(
    windows: bool,
    script: Seq<char>,
    environment: Seq<(Seq<char>, Seq<char>)>,
) -> ShellCommandView {
    if windows {
        ShellCommandView { program: "cmd"@, flag: "/C"@, script, environment }
    } else {
        ShellCommandView { program: "sh"@, flag: "-c"@, script, environment }
    }
}

/// The command that asks the runtime for its version. It sets nothing in
/// the environment.
pub open spec fn detect_command_spec(windows: bool) -> ShellCommandView {
    shell_for(windows, "ollama -v"@, Seq::empty())
}

/// What every start sets for the server: requests from every origin are
/// allowed, and the listen address is fixed.
pub open spec fn serve_environment() -> Seq<(Seq<char>, Seq<char>)> {
    seq![("OLLAMA_ORIGINS"@, "*"@), ("OLLAMA_HOST"@, "127.0.0.1:11434"@)]
}

/// The command that starts the runtime's server: the serve subcommand under
/// the platform's shell, with [`serve_environment`] on every platform.
pub open spec fn serve_command_spec(windows: bool) -> ShellCommandView {
    shell_for(windows, "ollama serve"@, serve_environment())
}

fn shell(windows: bool, script: &str, environment: Vec<EnvironmentVariable>) -> (cmd: ShellCommand)
    ensures
        cmd@ == shell_for(windows, script@, environment_view(environment@)),
{
    if windows {
        ShellCommand {
            program: String::from_str("cmd"),
            flag: String::from_str("/C"),
            script: String::from_str(script),
            environment,
        }
    } else {
        ShellCommand {
            program: String::from_str("sh"),
            flag: String::from_str("-c"),
            script: String::from_str(script),
            environment,
        }
    }
}

fn variable(name: &str, value: &str) -> (v: EnvironmentVariable)
    ensures
        v.name@ == name@,
        v.value@ == value@,
{
    EnvironmentVariable { name: String::from_str(name), value: String::from_str(value) }
}

/// The command line whose output [`check_ollama_installed`] reads.
pub fn detect_command(windows: bool) -> (cmd: ShellCommand)
    ensures
        cmd@ == detect_command_spec(windows),
{
    let environment: Vec<EnvironmentVariable> = Vec::new();
    proof {
        assert(environment_view(environment@) =~= Seq::empty());
    }
    shell(windows, "ollama -v", environment)
}

/// The command line to spawn before [`start_ollama_server`] is asked, with
/// the environment to spawn it in.
pub fn serve_command(windows: bool) -> (cmd: ShellCommand)
    ensures
        cmd@ == serve_command_spec(windows),
{
    let mut environment: Vec<EnvironmentVariable> = Vec::new();
    environment.push(variable("OLLAMA_ORIGINS", "*"));
    environment.push(variable("OLLAMA_HOST", "127.0.0.1:11434"));
    proof {
        assert(environment_view(environment@) =~= serve_environment());
    }
    shell(windows, "ollama serve", environment)
}

/// The status that follows from the combined output of the version command.
///
/// Any output at all means that the runtime is installed. It then counts as
/// running unless the output holds [`NO_SERVER_MARKER`]. No output means that
/// it was not found.
pub open spec fn status_of_output(text: Seq<char>) -> StatusView {
    if text.len() > 0 {
        StatusView {
            installed: true,
            running: !contains_text(text, NO_SERVER_MARKER@),
            error: None,
            path: None,
        }
    } else {
        StatusView {
            installed: false,
            running: false,
            error: Some("Ollama not found"@),
            path: None,
        }
    }
}

/// The status when the version command could not be run at all.
pub open spec fn status_of_spawn_failure(message: Seq<char>) -> StatusView {
    StatusView {
        installed: false,
        running: false,
        error: Some("Detection error: "@ + message),
        path: None,
    }
}

/// The status after a request to start the server: optimistic on a
/// successful spawn, with the diagnostic otherwise.
pub open spec fn status_of_start(spawned: Result<(), Seq<char>>) -> StatusView {
    match spawned {
        Ok(_) => StatusView { installed: true, running: true, error: None, path: None },
        Err(message) => StatusView {
            installed: true,
            running: false,
            error: Some("Failed to start Ollama: "@ + message),
            path: None,
        },
    }
}

/// A spawn attempt with its diagnostic as characters.
pub open spec fn spawn_outcome(spawned: Result<(), String>) -> Result<(), Seq<char>> {
    match spawned {
        Ok(_) => Ok(()),
        Err(message) => Err(message@),
    }
}

/// Reads the combined output of the version command.
pub fn status_from_output(text: &str) -> (status: OllamaStatus)
    ensures
        status@ == status_of_output(text@),
{
    if text.is_empty() {
        OllamaStatus {
            installed: false,
            running: false,
            error: Some(String::from_str("Ollama not found")),
            path: None,
        }
    } else {
        let running = !contains(text, NO_SERVER_MARKER);
        OllamaStatus { installed: true, running, error: None, path: None }
    }
}

/// The status for a version command that could not be spawned.
pub fn status_from_spawn_failure(message: &str) -> (status: OllamaStatus)
    ensures
        status@ == status_of_spawn_failure(message@),
{
    OllamaStatus {
        installed: false,
        running: false,
        error: Some(join("Detection error: ", message)),
        path: None,
    }
}

/// The text that a lossy decoding gives for a byte string: the bytes read as
/// UTF-8, each malformed stretch replaced by U+FFFD.
pub uninterp spec fn lossy_text(bytes: Seq<u8>) -> Seq<char>;

/// Calls `String::from_utf8_lossy`. Trusted: the result is a function of the
/// bytes alone; well-formed UTF-8 decodes to the characters it encodes; and
/// since malformed bytes are replaced, not dropped, bytes that are not
/// empty give a text that is not empty.
#[verifier::external_body]
fn decode_lossy(bytes: &[u8]) -> (text: String)
    ensures
        text@ == lossy_text(bytes@),
        valid_utf8(bytes@) ==> text@ == decode_utf8(bytes@),
        bytes@.len() > 0 ==> text@.len() > 0,
{
    String::from_utf8_lossy(bytes).into_owned()
}

/// The outcome of running the version command: the bytes of standard output
/// and of standard error, or the reason why it could not be spawned.
pub type AttemptView = Result<(Seq<u8>, Seq<u8>), Seq<char>>;

/// The mathematical value of an attempt.
pub open spec fn attempt_view(attempt: Result<ProcessOutput, String>) -> AttemptView {
    match attempt {
        Ok(output) => Ok((output.stdout@, output.stderr@)),
        Err(message) => Err(message@),
    }
}

/// The text that a finished command left: standard output, then standard
/// error, each decoded on its own.
pub open spec fn combined_text(stdout: Seq<u8>, stderr: Seq<u8>) -> Seq<char> {
    lossy_text(stdout) + lossy_text(stderr)
}

/// The status that an attempt to run the version command stands for.
pub open spec fn detection_of(attempt: AttemptView) -> StatusView {
    match attempt {
        Ok(streams) => status_of_output(combined_text(streams.0, streams.1)),
        Err(message) => status_of_spawn_failure(message),
    }
}

/// Both streams of the attempt, if it has any, are well-formed UTF-8.
pub open spec fn well_encoded(attempt: AttemptView) -> bool {
    match attempt {
        Ok(streams) => valid_utf8(streams.0) && valid_utf8(streams.1),
        Err(_) => true,
    }
}

/// The status that a well-encoded attempt stands for, over the characters
/// that its streams encode.
pub open spec fn decoded_detection(attempt: AttemptView) -> StatusView {
    match attempt {
        Ok(streams) => status_of_output(decode_utf8(streams.0) + decode_utf8(streams.1)),
        Err(message) => status_of_spawn_failure(message),
    }
}

/// Whether the command ran and left a byte on either stream.
pub open spec fn any_output(attempt: AttemptView) -> bool {
    match attempt {
        Ok(streams) => streams.0.len() + streams.1.len() > 0,
        Err(_) => false,
    }
}

/// Answers whether the runtime is installed and serving, from the outcome
/// of the command that [`detect_command`] describes. Standard output and
/// standard error are decoded and read as one text, output first. Any
/// output at all, well-formed or not, means installed.
pub fn check_ollama_installed(attempt: Result<ProcessOutput, String>) -> (status: OllamaStatus)
    ensures
        status@ == detection_of(attempt_view(attempt)),
        status.installed == any_output(attempt_view(attempt)),
        well_encoded(attempt_view(attempt)) ==> status@ == decoded_detection(
            attempt_view(attempt),
        ),
        status.path is None,
        !status.installed ==> !status.running && status.error is Some,
        status.installed ==> status.error is None,
{
    match attempt {
        Ok(output) => {
            let stdout = decode_lossy(output.stdout.as_slice());
            let stderr = decode_lossy(output.stderr.as_slice());
            proof {
                let nothing = Seq::<u8>::empty();
                assert(valid_utf8(nothing));
                assert(decode_utf8(nothing).len() == 0);
                assert(output.stdout@.len() == 0 ==> output.stdout@ =~= nothing);
                assert(output.stderr@.len() == 0 ==> output.stderr@ =~= nothing);
            }
            let text = join(stdout.as_str(), stderr.as_str());
            status_from_output(text.as_str())
        },
        Err(message) => status_from_spawn_failure(message.as_str()),
    }
}

/// Reports on a request to start the server, given whether the command that
/// [`serve_command`] describes could be spawned. A successful spawn is
/// reported as running without waiting for the server to listen, and
/// whether or not another instance runs already.
pub fn start_ollama_server(spawned: Result<(), String>) -> (status: OllamaStatus)
    ensures
        status@ == status_of_start(spawn_outcome(spawned)),
        status.installed,
        status.running == spawned is Ok,
{
    match spawned {
        Ok(_) => OllamaStatus { installed: true, running: true, error: None, path: None },
        Err(message) => OllamaStatus {
            installed: true,
            running: false,
            error: Some(join("Failed to start Ollama: ", message.as_str())),
            path: None,
        },
    }
}

/// The greeting shown for `name`.
pub open spec fn greeting(name: Seq<char>) -> Seq<char> {
    "Hello, "@ + name + "! You've been greeted from Rust!"@
}

/// Greets `name`.
pub fn greet(name: &str) -> (out: String)
    ensures
        out@ == greeting(name@),
{
    let mut out = join("Hello, ", name);
    out.append("! You've been greeted from Rust!");
    out
}

} // verus!
