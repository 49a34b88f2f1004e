//! A bridge between a managed host application and native audio processing.
//!
//! The crate holds the rules of that boundary: how bulk sample buffers and
//! text change owner, how a failing call leaves its diagnostic for the caller,
//! and how an external tool is invoked and its answer relayed.
//!
//! Every entry point validates what it was given, does its work or has it
//! done, packages the result, and returns. A failure is reported twice over:
//! by the status code that comes back, and by the diagnostic that is left in
//! the caller's [`ErrorChannel`]. Entry points that answer in text report a
//! failure in the envelope they return.

use vstd::prelude::*;
use vstd::string::*;
use vstd::utf8::*;
use crate::error_channel::after_record;
use crate::error_channel::ErrorChannel;
use crate::owned_buffer::alloc_buffers;
use crate::audio_io::AudioFile;
use crate::dsp::SeparatedStems;
use crate::owned_buffer::releasable;
use crate::owned_buffer::stem_at;
use crate::owned_buffer::OwnedBuffer;
use crate::owned_buffer::STEM_COUNT;
use crate::owned_string::transported;
use crate::owned_string::OwnedString;
use crate::status::StatusCode;
use crate::text::append_decimal;
use crate::text::decimal_text;
use crate::text::lemma_plain_text_bytes;
use crate::text::utf8_text;

pub use crate::error_channel::get_last_error_message;
pub use crate::owned_buffer::free_stem_memory;
pub use crate::owned_string::free_string;
pub use crate::probe::load_audio_file;
pub use crate::probe::report_probe;
pub use crate::probe::ProbeOutcome;
pub use crate::tool::extract_midi_via_tool;
pub use crate::tool::outcome_envelope;
pub use crate::tool::relay_tool_run;
pub use crate::tool::separate_stems_via_tool;
pub use crate::tool::ToolStep;

pub mod audio_io;
pub mod dsp;
pub mod envelope;
pub mod error_channel;
pub mod midi;
pub mod owned_buffer;
pub mod owned_string;
pub mod probe;
pub mod process;
pub mod status;
pub mod text;
pub mod tool;

verus! {

/// The number of interleaved channels that the engine takes its input to
/// have.
pub const ENGINE_CHANNELS: u16 = 2;

/// The sample rate that the engine takes its input to have.
pub const ENGINE_SAMPLE_RATE: u32 = 44100;

/// Brings the engine up. There is nothing to bring up yet, so this succeeds.
pub fn initialize_audio_engine() -> (status: StatusCode)
    ensures
        status == StatusCode::Success,
{
    StatusCode::Success
}

/// Shuts the engine down. There is nothing to shut down yet, so this
/// succeeds.
pub fn cleanup_audio_engine() -> (status: StatusCode)
    ensures
        status == StatusCode::Success,
{
    StatusCode::Success
}

/// The diagnostic for an input buffer that is absent.
pub open spec fn null_input_text() -> Seq<char> {
    "Input buffer was null."@
}

/// The diagnostic for output buffer slots that are absent.
pub open spec fn null_output_buffers_text() -> Seq<char> {
    "Output buffers pointer was null."@
}

/// The diagnostic for output length slots that are absent.
pub open spec fn null_output_lengths_text() -> Seq<char> {
    "Output lengths pointer was null."@
}

/// The diagnostic for a request that asks for a number of stems other than
/// four.
pub open spec fn wrong_stem_count_text(num_stems: usize) -> Seq<char> {
    "Expected num_stems to be 4, but got "@ + decimal_text(num_stems as nat) + "."@
}

/// The diagnostic for an engine that refused its input.
pub open spec fn separation_failed_text(reason: Seq<char>) -> Seq<char> {
    "Failed to separate stems: "@ + reason
}

fn wrong_stem_count_message(num_stems: usize) -> (message: String)
    ensures
        message@ == wrong_stem_count_text(num_stems),
{
    let mut message = "Expected num_stems to be 4, but got ".to_owned();
    append_decimal(&mut message, num_stems as u64);
    message.append(".");
    message
}

/// What is wrong with a separation request, if anything: the diagnostic of
/// the first check that it fails.
pub open spec fn stem_request_fault(
    has_input: bool,
    has_output_buffers: bool,
    has_output_lengths: bool,
    num_stems: usize,
) -> Option<Seq<char>> {
    if !has_input {
        Some(null_input_text())
    } else if !has_output_buffers {
        Some(null_output_buffers_text())
    } else if !has_output_lengths {
        Some(null_output_lengths_text())
    } else if num_stems != STEM_COUNT {
        Some(wrong_stem_count_text(num_stems))
    } else {
        None
    }
}

/// What a separation hands to the host: the status, and for each output
/// slot the buffer and the length reported for it.
pub struct StemTransfer {
    pub status: StatusCode,
    pub buffers: Vec<OwnedBuffer>,
    pub lengths: Vec<usize>,
}

impl StemTransfer {
    /// Whether nothing was handed over.
    pub open spec fn is_empty(self) -> bool {
        self.buffers@.len() == 0 && self.lengths@.len() == 0
    }

    /// Whether this is the transfer of the given stems: a success, with one
    /// buffer and one length per stem in protocol order, each buffer a copy
    /// of its stem, each length that of its buffer.
    pub open spec fn carries(self, stems: SeparatedStems) -> bool {
        &&& self.status == StatusCode::Success
        &&& self.buffers@.len() == STEM_COUNT
        &&& self.lengths@.len() == STEM_COUNT
        &&& forall|k: int|
            0 <= k < STEM_COUNT ==> (#[trigger] self.buffers@[k])@ == stem_at(stems, k)
        &&& forall|k: int|
            0 <= k < STEM_COUNT ==> (#[trigger] self.lengths@[k]) == self.buffers@[k]@.len()
    }

    /// Whether this is the transfer of the stems of `audio`: one buffer and
    /// one length per stem, each buffer the mix-down of the audio, each
    /// length that of its buffer.
    pub open spec fn carries_stems_of<F: Fn(u32, u32) -> u32>(self, audio: Seq<u32>, mix: F) -> bool {
        &&& self.status == StatusCode::Success
        &&& self.buffers@.len() == STEM_COUNT
        &&& self.lengths@.len() == STEM_COUNT
        &&& forall|k: int|
            0 <= k < STEM_COUNT ==> {
                &&& (#[trigger] self.lengths@[k]) == audio.len() / (ENGINE_CHANNELS as nat)
                &&& self.buffers@[k]@.len() == self.lengths@[k]
            }
        &&& forall|k: int|
            0 <= k < STEM_COUNT ==> {
                &&& dsp::mixed_down(audio, ENGINE_CHANNELS, mix, (#[trigger] self.buffers@[k])@)
                &&& self.buffers@[k]@ == self.buffers@[0]@
            }
    }

    fn rejected(status: StatusCode) -> (transfer: StemTransfer)
        ensures
            transfer.status == status,
            transfer.is_empty(),
    {
        StemTransfer { status, buffers: Vec::new(), lengths: Vec::new() }
    }
}

/// Hands over what the engine made of a request for `num_stems` stems.
///
/// Stems are copied into buffers of their own, one per slot, and the length
/// reported for a slot is the length of its buffer. An engine that refused
/// its input is a processing failure, and the diagnostic holds its reason.
/// A request for a number of stems other than four is invalid input. Either
/// way nothing is handed over.
pub fn package_stems(
    errors: &mut ErrorChannel,
    separated: Result<SeparatedStems, String>,
    num_stems: usize,
) -> (transfer: StemTransfer)
    ensures
        match separated {
            Ok(stems) => if num_stems == STEM_COUNT {
                &&& transfer.carries(stems)
                &&& final(errors)@ == old(errors)@
            } else {
                &&& transfer.status == StatusCode::InvalidInput
                &&& transfer.is_empty()
                &&& final(errors)@ == after_record(old(errors)@, wrong_stem_count_text(num_stems))
            },
            Err(reason) => {
                &&& transfer.status == StatusCode::ProcessingFailed
                &&& transfer.is_empty()
                &&& final(errors)@ == after_record(old(errors)@, separation_failed_text(reason@))
            },
        },
{
    match separated {
        Ok(separated_stems) => {
            match alloc_buffers(&separated_stems, num_stems) {
                Ok(buffers) => {
                    let mut lengths: Vec<usize> = Vec::with_capacity(STEM_COUNT);
                    let mut index: usize = 0;
                    while index < STEM_COUNT
                        invariant
                            index <= STEM_COUNT,
                            buffers@.len() == STEM_COUNT,
                            lengths@.len() == index,
                            forall|k: int|
                                0 <= k < index ==> (#[trigger] lengths@[k]) == buffers@[k]@.len(),
                        decreases STEM_COUNT - index,
                    {
                        lengths.push(buffers[index].len());
                        index += 1;
                    }
                    StemTransfer { status: StatusCode::Success, buffers, lengths }
                },
                Err(status) => {
                    let message = wrong_stem_count_message(num_stems);
                    StemTransfer::rejected(errors.fail(status, message.as_str()))
                },
            }
        },
        Err(reason) => {
            let mut message = "Failed to separate stems: ".to_owned();
            message.append(reason.as_str());
            StemTransfer::rejected(errors.fail(StatusCode::ProcessingFailed, message.as_str()))
        },
    }
}

/// Separates interleaved stereo audio into four stems and hands them to the
/// host.
///
/// The request is checked first: the input and both sets of output slots
/// must be present, and the number of stems asked for must be four. A
/// request that fails a check is invalid input; nothing is allocated for it,
/// and the diagnostic names the first check that failed. For a request that
/// passes, each of the four slots receives a buffer of its own with the
/// mix-down of the input, and the length reported for a slot is the length
/// of its buffer: half the input length, rounded down.
pub fn separate_stems<F: Fn(u32, u32) -> u32>(
    errors: &mut ErrorChannel,
    input_buffer: Option<&[u32]>,
    has_output_buffers: bool,
    has_output_lengths: bool,
    num_stems: usize,
    mix: F,
) -> (transfer: StemTransfer)
    requires
        forall|a: u32, b: u32| call_requires(mix, (a, b)),
    ensures
        match stem_request_fault(
            input_buffer is Some,
            has_output_buffers,
            has_output_lengths,
            num_stems,
        ) {
            Some(message) => {
                &&& transfer.status == StatusCode::InvalidInput
                &&& transfer.is_empty()
                &&& final(errors)@ == after_record(old(errors)@, message)
            },
            None => {
                &&& transfer.carries_stems_of(input_buffer->0@, mix)
                &&& final(errors)@ == old(errors)@
            },
        },
{
    let input = match input_buffer {
        Some(input) => input,
        None => {
            let status = errors.fail(StatusCode::InvalidInput, "Input buffer was null.");
            return StemTransfer::rejected(status);
        },
    };
    if !has_output_buffers {
        let status = errors.fail(StatusCode::InvalidInput, "Output buffers pointer was null.");
        return StemTransfer::rejected(status);
    }
    if !has_output_lengths {
        let status = errors.fail(StatusCode::InvalidInput, "Output lengths pointer was null.");
        return StemTransfer::rejected(status);
    }
    if num_stems != STEM_COUNT {
        let message = wrong_stem_count_message(num_stems);
        let status = errors.fail(StatusCode::InvalidInput, message.as_str());
        return StemTransfer::rejected(status);
    }
    let separated = dsp::separate_stems(input, ENGINE_CHANNELS, ENGINE_SAMPLE_RATE, mix);
    package_stems(errors, separated, num_stems)
}

/// Every buffer of a separation that succeeded may be released with the
/// length that was reported for it.
pub proof fn lemma_transferred_buffers_are_releasable<F: Fn(u32, u32) -> u32>(
    transfer: StemTransfer,
    audio: Seq<u32>,
    mix: F,
)
    requires
        transfer.carries_stems_of(audio, mix),
    ensures
        forall|k: int|
            0 <= k < STEM_COUNT ==> releasable(#[trigger] transfer.buffers@[k], transfer.lengths@[k]),
{
    assert forall|k: int| 0 <= k < STEM_COUNT implies releasable(
        #[trigger] transfer.buffers@[k],
        transfer.lengths@[k],
    ) by {
        assert(transfer.lengths@[k] == audio.len() / (ENGINE_CHANNELS as nat));
    }
}

/// The diagnostic for an output path that is absent.
pub open spec fn null_output_path_text() -> Seq<char> {
    "Output path was null."@
}

/// The diagnostic for an output path that is not text.
pub open spec fn output_path_not_text_text() -> Seq<char> {
    "Failed to convert output_path to a valid UTF-8 string."@
}

/// What is wrong with an extraction request, if anything: the diagnostic of
/// the first check that it fails.
pub open spec fn midi_request_fault(has_input: bool, output_path: Option<Seq<u8>>) -> Option<
    Seq<char>,
> {
    if !has_input {
        Some(null_input_text())
    } else {
        match output_path {
            None => Some(null_output_path_text()),
            Some(raw) => if valid_utf8(raw) {
                None
            } else {
                Some(output_path_not_text_text())
            },
        }
    }
}

/// Extracts the notes of the given audio into a MIDI file at `output_path`.
///
/// The request is checked: the input must be present, and the path must be
/// present and well-formed UTF-8. A request that fails a check is invalid
/// input, and the diagnostic names the first check that failed. The engine
/// finds no notes in any input yet, so a request that passes succeeds with
/// nothing written.
pub fn extract_midi(
    errors: &mut ErrorChannel,
    input_buffer: Option<&[u32]>,
    output_path: Option<&[u8]>,
) -> (status: StatusCode)
    ensures
        match midi_request_fault(
            input_buffer is Some,
            match output_path {
                Some(raw) => Some(raw@),
                None => None,
            },
        ) {
            Some(message) => {
                &&& status == StatusCode::InvalidInput
                &&& final(errors)@ == after_record(old(errors)@, message)
            },
            None => {
                &&& status == StatusCode::Success
                &&& final(errors)@ == old(errors)@
            },
        },
{
    if input_buffer.is_none() {
        return errors.fail(StatusCode::InvalidInput, "Input buffer was null.");
    }
    let raw = match output_path {
        Some(raw) => raw,
        None => {
            return errors.fail(StatusCode::InvalidInput, "Output path was null.");
        },
    };
    match utf8_text(raw) {
        Some(_) => StatusCode::Success,
        None => errors.fail(
            StatusCode::InvalidInput,
            "Failed to convert output_path to a valid UTF-8 string.",
        ),
    }
}

/// The report of a self-test that failed.
pub open spec fn test_failed_text(reason: Seq<char>) -> Seq<char> {
    "Audio system test failed: "@ + reason
}

/// The text that the host receives for the outcome of a self-test.
pub open spec fn test_report_text(outcome: Result<String, String>) -> Seq<u8> {
    match outcome {
        Ok(message) => transported(
            encode_utf8(message@),
            encode_utf8("Error converting result to C string"@),
        ),
        Err(reason) => transported(
            encode_utf8(test_failed_text(reason@)),
            encode_utf8("Error converting error message to C string"@),
        ),
    }
}

/// Hands the outcome of a self-test to the host: the report of a test that
/// ran through, or the reason of one that failed, after a note that it did.
pub fn audio_test_report(outcome: Result<String, String>) -> (report: OwnedString)
    ensures
        report@ == test_report_text(outcome),
{
    match outcome {
        Ok(message) => {
            let fallback = "Error converting result to C string";
            proof {
                reveal_strlit("Error converting result to C string");
                lemma_plain_text_bytes(fallback@);
            }
            OwnedString::new_or(message.as_str().as_bytes(), fallback)
        },
        Err(error) => {
            let fallback = "Error converting error message to C string";
            proof {
                reveal_strlit("Error converting error message to C string");
                lemma_plain_text_bytes(fallback@);
            }
            let mut error_message = "Audio system test failed: ".to_owned();
            error_message.append(error.as_str());
            OwnedString::new_or(error_message.as_str().as_bytes(), fallback)
        },
    }
}

/// Runs the self-test of the playback device on the given tone and hands
/// its report to the host.
///
/// The self-test completes on every tone, so the report is always the one
/// of completion.
pub fn test_audio_system(test_tone: &AudioFile) -> (report: OwnedString)
    ensures
        report@ == encode_utf8(audio_io::test_completed_text()),
{
    proof {
        reveal_strlit("Audio system test completed successfully");
        lemma_plain_text_bytes(audio_io::test_completed_text());
    }
    audio_test_report(audio_io::test_audio_system(test_tone))
}

} // verus!
