//! Loading an audio file: the path is checked here, the file is probed by
//! the host, and what the probe came to is reported here.

use vstd::prelude::*;
use vstd::string::*;
use vstd::utf8::*;
use crate::error_channel::after_record;
use crate::error_channel::ErrorChannel;
use crate::status::StatusCode;
use crate::text::framed;
use crate::text::utf8_text;

verus! {

/// What the probe of a file came to.
pub enum ProbeOutcome {
    /// The file could not be opened; the reason is the system's.
    OpenFailed(String),
    /// The file was opened, but no known format was recognized in it; the
    /// reason is the decoder's.
    ProbeFailed(String),
    /// A format was recognized, but it holds no default track.
    NoDefaultTrack,
    /// A format with a default track was recognized.
    Probed,
}

/// The diagnostic for a file path that is absent.
pub open spec fn null_path_text() -> Seq<char> {
    "Input file_path was null."@
}

/// The diagnostic for a file path that is not text.
pub open spec fn path_not_text_text() -> Seq<char> {
    "Failed to convert file_path to a valid UTF-8 string."@
}

/// The diagnostic for a file that could not be opened.
pub open spec fn open_failed_text(path: Seq<char>, reason: Seq<char>) -> Seq<char> {
    "Failed to open file '"@ + path + "': "@ + reason
}

/// The diagnostic for a file in which no format was recognized.
pub open spec fn probe_failed_text(path: Seq<char>, reason: Seq<char>) -> Seq<char> {
    "Failed to probe audio format for '"@ + path + "': "@ + reason
}

/// The diagnostic for a file without a default track.
pub open spec fn no_default_track_text(path: Seq<char>) -> Seq<char> {
    "No default audio track found in '"@ + path + "'."@
}

/// Takes up a request to load the audio file at `file_path`.
///
/// A path that is present and well-formed UTF-8 is handed back as text; the
/// caller then probes the file and reports with [`report_probe`]. An absent
/// path, or one that is not text, is invalid input, and the diagnostic says
/// which.
pub fn load_audio_file<'a>(errors: &mut ErrorChannel, file_path: Option<&'a [u8]>) -> (request:
    Result<&'a str, StatusCode>)
    ensures
        match file_path {
            None => {
                &&& request == Err::<&str, StatusCode>(StatusCode::InvalidInput)
                &&& final(errors)@ == after_record(old(errors)@, null_path_text())
            },
            Some(raw) => if valid_utf8(raw@) {
                &&& request matches Ok(path)
                &&& path@ == decode_utf8(raw@)
                &&& path.spec_bytes() == raw@
                &&& final(errors)@ == old(errors)@
            } else {
                &&& request == Err::<&str, StatusCode>(StatusCode::InvalidInput)
                &&& final(errors)@ == after_record(old(errors)@, path_not_text_text())
            },
        },
{
    let raw = match file_path {
        Some(raw) => raw,
        None => {
            return Err(errors.fail(StatusCode::InvalidInput, "Input file_path was null."));
        },
    };
    match utf8_text(raw) {
        Some(path) => {
            proof {
                encode_utf8_decode_utf8(path@);
            }
            Ok(path)
        },
        None => Err(
            errors.fail(
                StatusCode::InvalidInput,
                "Failed to convert file_path to a valid UTF-8 string.",
            ),
        ),
    }
}

/// The status that a probe outcome is reported with.
pub open spec fn probe_status(outcome: ProbeOutcome) -> StatusCode {
    match outcome {
        ProbeOutcome::OpenFailed(_) => StatusCode::FileNotFound,
        ProbeOutcome::ProbeFailed(_) => StatusCode::ProcessingFailed,
        ProbeOutcome::NoDefaultTrack => StatusCode::ProcessingFailed,
        ProbeOutcome::Probed => StatusCode::Success,
    }
}

/// The diagnostic that a probe outcome leaves behind, if it is a failure.
pub open spec fn probe_diagnostic(path: Seq<char>, outcome: ProbeOutcome) -> Option<Seq<char>> {
    match outcome {
        ProbeOutcome::OpenFailed(reason) => Some(open_failed_text(path, reason@)),
        ProbeOutcome::ProbeFailed(reason) => Some(probe_failed_text(path, reason@)),
        ProbeOutcome::NoDefaultTrack => Some(no_default_track_text(path)),
        ProbeOutcome::Probed => None,
    }
}

/// Concludes the loading of the file at `path` from what its probe came to.
///
/// A file that cannot be opened is reported as not found; one that holds no
/// recognizable format, or no default track, as a processing failure. Each
/// failure leaves a diagnostic that names the path. Success leaves the
/// channel as it was.
pub fn report_probe(errors: &mut ErrorChannel, path: &str, outcome: &ProbeOutcome) -> (status:
    StatusCode)
    ensures
        status == probe_status(*outcome),
        final(errors)@ == match probe_diagnostic(path@, *outcome) {
            Some(message) => after_record(old(errors)@, message),
            None => old(errors)@,
        },
{
    match outcome {
        ProbeOutcome::OpenFailed(reason) => {
            let mut message = framed("Failed to open file '", path, "': ");
            message.append(reason.as_str());
            errors.fail(StatusCode::FileNotFound, message.as_str())
        },
        ProbeOutcome::ProbeFailed(reason) => {
            let mut message = framed("Failed to probe audio format for '", path, "': ");
            message.append(reason.as_str());
            errors.fail(StatusCode::ProcessingFailed, message.as_str())
        },
        ProbeOutcome::NoDefaultTrack => {
            let message = framed("No default audio track found in '", path, "'.");
            errors.fail(StatusCode::ProcessingFailed, message.as_str())
        },
        ProbeOutcome::Probed => StatusCode::Success,
    }
}

} // verus!
