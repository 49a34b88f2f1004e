//! Requests that are answered by the external tool.
//!
//! A request is taken up in two steps, with the host's work between them.
//! The first step checks the request and says what to run, or answers at
//! once ([`separate_stems_via_tool`], [`extract_midi_via_tool`]). The host
//! runs the tool. The second step turns how the run ended into the answer
//! ([`relay_tool_run`]).

use vstd::prelude::*;
use vstd::string::*;
use vstd::utf8::*;
use crate::envelope::error_envelope;
use crate::envelope::error_text_of;
use crate::envelope::escaped;
use crate::envelope::failure_head;
use crate::envelope::failure_json;
use crate::envelope::failure_tail;
use crate::envelope::fallback_envelope;
use crate::envelope::lemma_failure_is_never_success;
use crate::envelope::lemma_failure_json_is_lossless;
use crate::envelope::lemma_failure_json_mentions;
use crate::envelope::lemma_failure_json_shape;
use crate::envelope::occurs_in;
use crate::envelope::success_json;
use crate::owned_string::transported;
use crate::owned_string::OwnedString;
use crate::process::classify_run;
use crate::process::is_invocation;
use crate::process::location_fault;
use crate::process::pair_texts;
use crate::process::plan_invocation;
use crate::process::run_fault;
use crate::process::streams_read_as_themselves;
use crate::process::tool_missing_text;
use crate::process::ProcessOutcome;
use crate::process::ToolCommand;
use crate::process::ToolLocation;
use crate::process::ToolRun;
use crate::text::framed;
use crate::text::lemma_plain_text_bytes;
use crate::text::lemma_text_bytes_concat;
use crate::text::utf8_text;

verus! {

/// What the host does next for a request that goes to the external tool.
pub enum ToolStep {
    /// Start this process, wait for it, and hand how it ended to
    /// [`relay_tool_run`].
    Run(ToolCommand),
    /// Nothing is to be started; this envelope is the answer.
    Reply(OwnedString),
}

/// The diagnostic for an argument that is absent.
pub open spec fn missing_argument_text(key: Seq<char>) -> Seq<char> {
    "Argument "@ + key + " was null."@
}

/// The diagnostic for an argument that is not text.
pub open spec fn argument_not_text_text(key: Seq<char>) -> Seq<char> {
    "Failed to convert argument "@ + key + " to a valid UTF-8 string."@
}

/// What is wrong with an argument, if anything.
pub open spec fn argument_fault(key: Seq<char>, value: Option<&[u8]>) -> Option<Seq<char>> {
    match value {
        None => Some(missing_argument_text(key)),
        Some(raw) => if valid_utf8(raw@) {
            None
        } else {
            Some(argument_not_text_text(key))
        },
    }
}

/// Why a request to the tool is answered without starting it, if it is: the
/// arguments are checked first, in order, then the tool's location.
pub open spec fn tool_request_fault(
    location: ToolLocation,
    first_key: Seq<char>,
    first: Option<&[u8]>,
    second_key: Seq<char>,
    second: Option<&[u8]>,
) -> Option<Seq<char>> {
    if argument_fault(first_key, first) is Some {
        argument_fault(first_key, first)
    } else if argument_fault(second_key, second) is Some {
        argument_fault(second_key, second)
    } else {
        location_fault(location)
    }
}

/// Whether `step` is the right next step for the request: the failure
/// envelope with the request's fault where it has one, and otherwise the
/// invocation of `subcommand` with the two arguments.
pub open spec fn is_tool_step(
    step: ToolStep,
    location: ToolLocation,
    subcommand: Seq<char>,
    first_key: Seq<char>,
    first: Option<&[u8]>,
    second_key: Seq<char>,
    second: Option<&[u8]>,
) -> bool {
    match tool_request_fault(location, first_key, first, second_key, second) {
        Some(diagnostic) => step matches ToolStep::Reply(envelope) && envelope@ == failure_json(
            encode_utf8(diagnostic),
        ),
        None => step matches ToolStep::Run(command) && is_invocation(
            command,
            location,
            subcommand,
            seq![
                (first_key, decode_utf8(first->0@)),
                (second_key, decode_utf8(second->0@)),
            ],
        ),
    }
}

fn checked_argument<'a>(key: &str, value: Option<&'a [u8]>) -> (checked: Result<&'a str, String>)
    ensures
        match argument_fault(key@, value) {
            Some(diagnostic) => checked matches Err(message) && message@ == diagnostic,
            None => checked matches Ok(text) && text@ == decode_utf8(value->0@),
        },
{
    let raw = match value {
        Some(raw) => raw,
        None => {
            return Err(framed("Argument ", key, " was null."));
        },
    };
    match utf8_text(raw) {
        Some(text) => {
            proof {
                encode_utf8_decode_utf8(text@);
            }
            Ok(text)
        },
        None => Err(framed("Failed to convert argument ", key, " to a valid UTF-8 string.")),
    }
}

fn tool_request(
    location: &ToolLocation,
    subcommand: &str,
    first_key: &str,
    first: Option<&[u8]>,
    second_key: &str,
    second: Option<&[u8]>,
) -> (step: ToolStep)
    ensures
        is_tool_step(step, *location, subcommand@, first_key@, first, second_key@, second),
{
    let first_text = match checked_argument(first_key, first) {
        Ok(text) => text,
        Err(message) => {
            return ToolStep::Reply(error_envelope(message.as_str()));
        },
    };
    let second_text = match checked_argument(second_key, second) {
        Ok(text) => text,
        Err(message) => {
            return ToolStep::Reply(error_envelope(message.as_str()));
        },
    };
    let mut pairs: Vec<(String, String)> = Vec::new();
    pairs.push((first_key.to_owned(), first_text.to_owned()));
    pairs.push((second_key.to_owned(), second_text.to_owned()));
    match plan_invocation(location, subcommand, &pairs) {
        Ok(command) => {
            assert(pair_texts(pairs@) =~= seq![
                (first_key@, decode_utf8(first->0@)),
                (second_key@, decode_utf8(second->0@)),
            ]);
            ToolStep::Run(command)
        },
        Err(outcome) => ToolStep::Reply(outcome_envelope(&outcome)),
    }
}

/// Takes up a request to separate the audio file at `input_path` into stems
/// under `output_dir`, by way of the external tool.
///
/// Both paths must be present and well-formed UTF-8, and the tool and its
/// script must exist. A request that fails a check is answered at once with
/// a failure envelope that says which. For a request that passes, the host
/// is to run the tool's `separate_stems` with `input_path=` and
/// `output_dir=` arguments.
pub fn separate_stems_via_tool(
    location: &ToolLocation,
    input_path: Option<&[u8]>,
    output_dir: Option<&[u8]>,
) -> (step: ToolStep)
    ensures
        is_tool_step(
            step,
            *location,
            "separate_stems"@,
            "input_path"@,
            input_path,
            "output_dir"@,
            output_dir,
        ),
{
    tool_request(location, "separate_stems", "input_path", input_path, "output_dir", output_dir)
}

/// Takes up a request to extract the notes of the audio file at
/// `input_path` into a MIDI file at `output_path`, by way of the external
/// tool.
///
/// Both paths must be present and well-formed UTF-8, and the tool and its
/// script must exist. A request that fails a check is answered at once with
/// a failure envelope that says which. For a request that passes, the host
/// is to run the tool's `extract_midi` with `input_path=` and
/// `output_path=` arguments.
pub fn extract_midi_via_tool(
    location: &ToolLocation,
    input_path: Option<&[u8]>,
    output_path: Option<&[u8]>,
) -> (step: ToolStep)
    ensures
        is_tool_step(
            step,
            *location,
            "extract_midi"@,
            "input_path"@,
            input_path,
            "output_path"@,
            output_path,
        ),
{
    tool_request(location, "extract_midi", "input_path", input_path, "output_path", output_path)
}

/// The envelope that an outcome is answered with.
pub open spec fn outcome_json(outcome: ProcessOutcome) -> Seq<u8> {
    match outcome {
        ProcessOutcome::Completed(payload) => transported(
            payload@,
            encode_utf8(fallback_envelope()),
        ),
        ProcessOutcome::Failed { message, .. } => failure_json(encode_utf8(message@)),
    }
}

/// Answers the host with what an invocation came to.
///
/// The payload of a tool that completed is handed over as it is, unread:
/// a payload that reports an error of its own is relayed like any other.
/// Only a payload with an embedded terminator cannot be carried, and the
/// fallback envelope goes in its place. A failure is answered with a failure
/// envelope that holds its diagnostic.
pub fn outcome_envelope(outcome: &ProcessOutcome) -> (envelope: OwnedString)
    ensures
        envelope@ == outcome_json(*outcome),
{
    match outcome {
        ProcessOutcome::Completed(payload) => {
            let fallback =
                "{\"status\":\"error\",\"error\":\"Internal error: envelope could not be encoded.\",\"result\":null}";
            proof {
                reveal_strlit(
                    "{\"status\":\"error\",\"error\":\"Internal error: envelope could not be encoded.\",\"result\":null}",
                );
                lemma_plain_text_bytes(fallback@);
            }
            OwnedString::new_or(payload.as_slice(), fallback)
        },
        ProcessOutcome::Failed { message, .. } => error_envelope(message.as_str()),
    }
}

/// The answer to a run of the tool: the failure envelope with the run's
/// diagnostic where it failed, and otherwise its standard output, or the
/// fallback envelope where that cannot be carried.
pub open spec fn relay_json(run: ToolRun) -> Seq<u8> {
    match run_fault(run) {
        Some(diagnostic) => failure_json(encode_utf8(diagnostic)),
        None => transported(run->Exited_stdout@, encode_utf8(fallback_envelope())),
    }
}

/// Answers the host with what a run of the tool came to.
///
/// A run that exited with zero is answered with its standard output, byte
/// for byte. Any other run is answered with a failure envelope.
pub fn relay_tool_run(run: ToolRun) -> (envelope: OwnedString)
    ensures
        envelope@ == relay_json(run),
        streams_read_as_themselves(run),
{
    let outcome = classify_run(run);
    outcome_envelope(&outcome)
}

/// A request that finds no tool at the tool's path is answered at once,
/// with a failure envelope. The envelope opens with the status `error` and
/// closes with a result of `null`; its text is that of no success envelope;
/// and its error text, read back, says that the tool was not found and
/// holds the missing path.
pub proof fn lemma_missing_tool_is_reported(
    step: ToolStep,
    location: ToolLocation,
    subcommand: Seq<char>,
    first_key: Seq<char>,
    first: Option<&[u8]>,
    second_key: Seq<char>,
    second: Option<&[u8]>,
    result: Seq<u8>,
)
    requires
        is_tool_step(step, location, subcommand, first_key, first, second_key, second),
        argument_fault(first_key, first) is None,
        argument_fault(second_key, second) is None,
        !location.tool_exists,
    ensures
        step matches ToolStep::Reply(envelope) && {
            &&& envelope@ == failure_json(encode_utf8(tool_missing_text(location.tool_path@)))
            &&& envelope@ != success_json(result)
            &&& envelope@.subrange(0, encode_utf8(failure_head()).len() as int) == encode_utf8(
                failure_head(),
            )
            &&& envelope@.subrange(
                envelope@.len() - encode_utf8(failure_tail()).len(),
                envelope@.len() as int,
            ) == encode_utf8(failure_tail())
            &&& error_text_of(envelope@) == encode_utf8(tool_missing_text(location.tool_path@))
            &&& occurs_in(encode_utf8(location.tool_path@), error_text_of(envelope@))
            &&& occurs_in(escaped(encode_utf8(location.tool_path@)), envelope@)
        },
{
    let path = location.tool_path@;
    let diagnostic = tool_missing_text(path);
    lemma_failure_is_never_success(encode_utf8(diagnostic), result);
    lemma_failure_json_shape(encode_utf8(diagnostic));
    lemma_failure_json_is_lossless(encode_utf8(diagnostic));
    lemma_text_bytes_concat("External tool not found: "@, path);
    let before = encode_utf8("External tool not found: "@);
    let after = Seq::<u8>::empty();
    assert(before + encode_utf8(path) + after =~= encode_utf8(diagnostic));
    lemma_failure_json_mentions(before, encode_utf8(path), after);
    assert(encode_utf8(diagnostic).subrange(
        before.len() as int,
        (before.len() + encode_utf8(path).len()) as int,
    ) =~= encode_utf8(path));
}

/// A run that exited with zero is answered with its standard output, byte
/// for byte, whatever the output says: nothing is added, dropped or written
/// anew. The one output that terminated text cannot carry, one with a zero
/// byte in it, is left aside here.
pub proof fn lemma_zero_exit_is_relayed_verbatim(run: ToolRun)
    requires
        run matches ToolRun::Exited { code, stdout, stderr } && code == Some(0i32)
            && !stdout@.contains(0u8),
    ensures
        relay_json(run) == run->Exited_stdout@,
{
}

} // verus!
