//! MIDI notes and files.
//!
//! Note times are floating-point seconds, carried here as their 64-bit
//! patterns.

use std::path::Path;
use vstd::prelude::*;

verus! {

/// The tempo of a file that says nothing else, in beats per minute.
pub const DEFAULT_TEMPO: u32 = 120;

/// The time signature of a file that says nothing else.
pub const DEFAULT_TIME_SIGNATURE: (u8, u8) = (4, 4);

/// A MIDI note.
pub struct MidiNote {
    pub note: u8,
    pub velocity: u8,
    pub start_time: u64,
    pub end_time: u64,
}

/// A MIDI file.
pub struct MidiFile {
    pub notes: Vec<MidiNote>,
    pub tempo: u32,
    pub time_signature: (u8, u8),
}

impl MidiFile {
    /// An empty file: no notes, at the default tempo and time signature.
    pub fn new() -> (file: MidiFile)
        ensures
            file.notes@ == Seq::<MidiNote>::empty(),
            file.tempo == DEFAULT_TEMPO,
            file.time_signature == DEFAULT_TIME_SIGNATURE,
    {
        MidiFile { notes: Vec::new(), tempo: DEFAULT_TEMPO, time_signature: DEFAULT_TIME_SIGNATURE }
    }

    /// Saves the file to the given path. No encoder is behind this yet: nothing is
    /// written, and every path is accepted.
    pub fn save<P: AsRef<Path>>(&self, _path: P) -> (saved: Result<(), String>)
        ensures
            saved is Ok,
    {
        Ok(())
    }
}

/// Extracts the notes of the given audio. No pitch detection is behind this
/// yet: every audio gives an empty file.
pub fn extract_midi(_audio_data: &[u32], _sample_rate: u32) -> (extracted: Result<MidiFile, String>)
    ensures
        extracted matches Ok(file) && {
            &&& file.notes@ == Seq::<MidiNote>::empty()
            &&& file.tempo == DEFAULT_TEMPO
            &&& file.time_signature == DEFAULT_TIME_SIGNATURE
        },
{
    Ok(MidiFile::new())
}

/// Detects the pitch of an audio frame, as the bit pattern of a frequency.
/// No pitch detection is behind this yet: no frame has a pitch.
pub fn detect_pitch(_audio_frame: &[u32], _sample_rate: u32) -> (pitch: Option<u32>)
    ensures
        pitch is None,
{
    None
}

} // verus!
