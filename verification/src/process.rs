//! Invoking an external tool.
//!
//! Heavy processing is delegated to a tool that runs as a process of its
//! own. The tool is started as `<tool> <script> <subcommand> key=value ...`,
//! with every argument passed as it stands, never through a shell. It prints
//! one envelope to its standard output and exits with zero; any other exit
//! says that it failed, whatever it printed.
//!
//! Starting a process is the host's business. This module decides what to
//! start ([`plan_invocation`]) and what to make of how it ended
//! ([`classify_run`]).

use vstd::prelude::*;
use vstd::string::*;
use vstd::utf8::*;
use crate::status::StatusCode;
use crate::text::append_signed_decimal;
use crate::text::signed_decimal_text;

verus! {

/// Where the tool and its script are expected, and whether the host found
/// them there.
pub struct ToolLocation {
    pub tool_path: String,
    pub tool_exists: bool,
    pub script_path: String,
    pub script_exists: bool,
}

/// A process to start: the program and its arguments, in order.
pub struct ToolCommand {
    pub program: String,
    pub arguments: Vec<String>,
}

/// How an attempt to run the tool ended.
pub enum ToolRun {
    /// The process could not be started; the reason is the system's.
    SpawnFailed(String),
    /// The process ran and exited. `code` is absent where the system
    /// reports none, as for a process that a signal ended.
    Exited { code: Option<i32>, stdout: Vec<u8>, stderr: Vec<u8> },
}

/// What an invocation came to.
pub enum ProcessOutcome {
    /// The tool exited with zero. The payload is its standard output, byte
    /// for byte; what the payload says is for the caller to read.
    Completed(Vec<u8>),
    /// The tool is missing, could not be started, or exited with a failure.
    Failed { status: StatusCode, message: String },
}

/// The diagnostic for a tool that is not where it is expected.
pub open spec fn tool_missing_text(path: Seq<char>) -> Seq<char> {
    "External tool not found: "@ + path
}

/// The diagnostic for a script that is not where it is expected.
pub open spec fn script_missing_text(path: Seq<char>) -> Seq<char> {
    "Tool script not found: "@ + path
}

/// The diagnostic for a tool that could not be started.
pub open spec fn spawn_failed_text(reason: Seq<char>) -> Seq<char> {
    "Failed to start external tool: "@ + reason
}

/// How an exit is named in a diagnostic.
pub open spec fn exit_status_text(code: Option<i32>) -> Seq<char> {
    match code {
        Some(code) => "exit code "@ + signed_decimal_text(code as int),
        None => "no exit code"@,
    }
}

/// The diagnostic for a tool that exited with a failure: how it exited, and
/// what it wrote to either stream.
pub open spec fn exit_failed_text(code: Option<i32>, stdout: Seq<char>, stderr: Seq<char>) -> Seq<
    char,
> {
    "External tool failed with "@ + exit_status_text(code) + ". stdout: "@ + stdout + " stderr: "@
        + stderr
}

/// One `key=value` argument.
pub open spec fn key_value_text(key: Seq<char>, value: Seq<char>) -> Seq<char> {
    key + "="@ + value
}

/// Whether `command` is the invocation of `subcommand` of the tool at
/// `location` with the given pairs: the tool as the program, then the
/// script, the subcommand, and one `key=value` argument for each pair, in
/// order.
pub open spec fn is_invocation(
    command: ToolCommand,
    location: ToolLocation,
    subcommand: Seq<char>,
    pairs: Seq<(Seq<char>, Seq<char>)>,
) -> bool {
    &&& command.program@ == location.tool_path@
    &&& command.arguments@.len() == 2 + pairs.len()
    &&& command.arguments@[0]@ == location.script_path@
    &&& command.arguments@[1]@ == subcommand
    &&& forall|j: int|
        2 <= j < command.arguments@.len() ==> (#[trigger] command.arguments@[j])@
            == key_value_text(pairs[j - 2].0, pairs[j - 2].1)
}

/// The keys and values of `pairs`, as text.
pub open spec fn pair_texts(pairs: Seq<(String, String)>) -> Seq<(Seq<char>, Seq<char>)> {
    Seq::new(pairs.len(), |i: int| (pairs[i].0@, pairs[i].1@))
}

/// Why the tool at `location` cannot be invoked, if it cannot: the tool is
/// looked for first, then the script.
pub open spec fn location_fault(location: ToolLocation) -> Option<Seq<char>> {
    if !location.tool_exists {
        Some(tool_missing_text(location.tool_path@))
    } else if !location.script_exists {
        Some(script_missing_text(location.script_path@))
    } else {
        None
    }
}

/// Writes one `key=value` argument.
pub fn key_value_argument(key: &str, value: &str) -> (argument: String)
    ensures
        argument@ == key_value_text(key@, value@),
{
    let mut argument = key.to_owned();
    argument.append("=");
    argument.append(value);
    argument
}

/// Plans the invocation of `subcommand` with the given pairs.
///
/// The tool and the script must both exist. Where one is missing, nothing
/// is to be started: the outcome is a failure with the status of a missing
/// file and a diagnostic that names the missing path.
pub fn plan_invocation(location: &ToolLocation, subcommand: &str, pairs: &Vec<(String, String)>) -> (plan:
    Result<ToolCommand, ProcessOutcome>)
    ensures
        match location_fault(*location) {
            Some(diagnostic) => plan matches Err(ProcessOutcome::Failed { status, message })
                && status == StatusCode::FileNotFound && message@ == diagnostic,
            None => plan matches Ok(command) && is_invocation(
                command,
                *location,
                subcommand@,
                pair_texts(pairs@),
            ),
        },
{
    if !location.tool_exists {
        let mut message = "External tool not found: ".to_owned();
        message.append(location.tool_path.as_str());
        return Err(ProcessOutcome::Failed { status: StatusCode::FileNotFound, message });
    }
    if !location.script_exists {
        let mut message = "Tool script not found: ".to_owned();
        message.append(location.script_path.as_str());
        return Err(ProcessOutcome::Failed { status: StatusCode::FileNotFound, message });
    }
    let mut arguments: Vec<String> = Vec::new();
    arguments.push(location.script_path.clone());
    arguments.push(subcommand.to_owned());
    let mut i: usize = 0;
    while i < pairs.len()
        invariant
            i <= pairs@.len(),
            arguments@.len() == 2 + i,
            arguments@[0]@ == location.script_path@,
            arguments@[1]@ == subcommand@,
            forall|j: int|
                2 <= j < arguments@.len() ==> (#[trigger] arguments@[j])@ == key_value_text(
                    pairs@[j - 2].0@,
                    pairs@[j - 2].1@,
                ),
        decreases pairs@.len() - i,
    {
        let argument = key_value_argument(pairs[i].0.as_str(), pairs[i].1.as_str());
        arguments.push(argument);
        i += 1;
    }
    Ok(ToolCommand { program: location.tool_path.clone(), arguments })
}

/// What a stream of the tool reads as, where its bytes are taken for text
/// and every ill-formed stretch is replaced.
pub uninterp spec fn lossy_text(bytes: Seq<u8>) -> Seq<char>;

/// Reads a stream of the tool as text.
///
/// This is `String::from_utf8_lossy`, its result taken as an owned string.
/// Well-formed UTF-8 reads as itself; of other input only this is claimed,
/// that the same bytes always read the same.
#[verifier::external_body]
pub(crate) fn read_lossy(bytes: &[u8]) -> (text: String)
    ensures
        text@ == lossy_text(bytes@),
        valid_utf8(bytes@) ==> text@ == decode_utf8(bytes@),
{
    String::from_utf8_lossy(bytes).into_owned()
}

/// Writes the diagnostic for a tool that exited with a failure.
pub fn exit_failure_message(code: Option<i32>, stdout: &str, stderr: &str) -> (message: String)
    ensures
        message@ == exit_failed_text(code, stdout@, stderr@),
{
    let mut message = "External tool failed with ".to_owned();
    match code {
        Some(code) => {
            message.append("exit code ");
            append_signed_decimal(&mut message, code as i64);
        },
        None => {
            message.append("no exit code");
        },
    }
    message.append(". stdout: ");
    message.append(stdout);
    message.append(" stderr: ");
    message.append(stderr);
    assert(message@ =~= exit_failed_text(code, stdout@, stderr@));
    message
}

/// The diagnostic of a run that failed, if it did: a run fails unless the
/// process was started and exited with zero.
pub open spec fn run_fault(run: ToolRun) -> Option<Seq<char>> {
    match run {
        ToolRun::SpawnFailed(reason) => Some(spawn_failed_text(reason@)),
        ToolRun::Exited { code, stdout, stderr } => if code == Some(0i32) {
            None
        } else {
            Some(exit_failed_text(code, lossy_text(stdout@), lossy_text(stderr@)))
        },
    }
}

/// Whether each stream of a run that exited with a failure reads as itself
/// where it is well-formed UTF-8: the text in the diagnostic is then the
/// stream's own, with nothing replaced.
pub open spec fn streams_read_as_themselves(run: ToolRun) -> bool {
    run matches ToolRun::Exited { code, stdout, stderr } ==> code != Some(0i32) ==> {
        &&& valid_utf8(stdout@) ==> lossy_text(stdout@) == decode_utf8(stdout@)
        &&& valid_utf8(stderr@) ==> lossy_text(stderr@) == decode_utf8(stderr@)
    }
}

/// Classifies how a run of the tool ended.
///
/// A process that could not be started, and one that exited with anything
/// but zero, is a processing failure; the diagnostic holds the system's
/// reason, or the exit and what both streams held. A process that exited
/// with zero completed, and its standard output is the payload, untouched:
/// whether the payload itself reports success is not looked at here.
pub fn classify_run(run: ToolRun) -> (outcome: ProcessOutcome)
    ensures
        match run_fault(run) {
            Some(diagnostic) => outcome matches ProcessOutcome::Failed { status, message }
                && status == StatusCode::ProcessingFailed && message@ == diagnostic,
            None => outcome matches ProcessOutcome::Completed(payload) && payload@
                == run->Exited_stdout@,
        },
        streams_read_as_themselves(run),
{
    match run {
        ToolRun::SpawnFailed(reason) => {
            let mut message = "Failed to start external tool: ".to_owned();
            message.append(reason.as_str());
            ProcessOutcome::Failed { status: StatusCode::ProcessingFailed, message }
        },
        ToolRun::Exited { code, stdout, stderr } => {
            let succeeded = match code {
                Some(code) => code == 0,
                None => false,
            };
            if succeeded {
                ProcessOutcome::Completed(stdout)
            } else {
                let stdout_text = read_lossy(stdout.as_slice());
                let stderr_text = read_lossy(stderr.as_slice());
                let message = exit_failure_message(
                    code,
                    stdout_text.as_str(),
                    stderr_text.as_str(),
                );
                ProcessOutcome::Failed { status: StatusCode::ProcessingFailed, message }
            }
        },
    }
}

} // verus!
