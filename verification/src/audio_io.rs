//! Audio files in memory, and the playback device.
//!
//! Samples and durations are floating-point numbers. They are carried here
//! as their bit patterns: 32 bits for a sample, 64 for a duration in
//! seconds.

use std::path::Path;
use vstd::prelude::*;
use vstd::string::*;

verus! {

/// The complaint of a device that was never initialized.
pub open spec fn not_initialized_text() -> Seq<char> {
    "Audio device not initialized"@
}

/// The report of a self-test that ran through.
pub open spec fn test_completed_text() -> Seq<char> {
    "Audio system test completed successfully"@
}

/// The sample rate of a file that says nothing else.
pub const DEFAULT_SAMPLE_RATE: u32 = 44100;

/// The channel count of a file that says nothing else.
pub const DEFAULT_CHANNELS: u16 = 2;

/// The bit pattern of a silent sample.
pub const SILENCE: u32 = 0;

/// The bit pattern of a duration of no seconds.
pub const NO_SECONDS: u64 = 0;

/// The bit pattern of a duration of one second.
pub const ONE_SECOND: u64 = 0x3ff0_0000_0000_0000;

/// The number of samples in one second of audio at the default rate and
/// channel count.
pub const ONE_SECOND_OF_SAMPLES: usize = 88200;

/// An audio file with its metadata and samples.
pub struct AudioFile {
    pub sample_rate: u32,
    pub channels: u16,
    pub samples: Vec<u32>,
    pub duration_seconds: u64,
}

impl AudioFile {
    /// An empty file: no samples and no duration, at the default rate and
    /// channel count.
    pub fn new() -> (file: AudioFile)
        ensures
            file.sample_rate == DEFAULT_SAMPLE_RATE,
            file.channels == DEFAULT_CHANNELS,
            file.samples@ == Seq::<u32>::empty(),
            file.duration_seconds == NO_SECONDS,
    {
        AudioFile {
            sample_rate: DEFAULT_SAMPLE_RATE,
            channels: DEFAULT_CHANNELS,
            samples: Vec::new(),
            duration_seconds: NO_SECONDS,
        }
    }

    /// Loads the file at the given path. No decoder is behind this yet: every path
    /// loads as one second of stereo silence.
    pub fn load<P: AsRef<Path>>(_path: P) -> (loaded: Result<AudioFile, String>)
        ensures
            loaded matches Ok(file) && {
                &&& file.sample_rate == DEFAULT_SAMPLE_RATE
                &&& file.channels == DEFAULT_CHANNELS
                &&& file.samples@ == Seq::new(ONE_SECOND_OF_SAMPLES as nat, |i: int| SILENCE)
                &&& file.duration_seconds == ONE_SECOND
            },
    {
        let mut audio_file = AudioFile::new();
        audio_file.sample_rate = DEFAULT_SAMPLE_RATE;
        audio_file.channels = DEFAULT_CHANNELS;
        audio_file.samples = vec![SILENCE; ONE_SECOND_OF_SAMPLES];
        audio_file.duration_seconds = ONE_SECOND;
        assert(audio_file.samples@ =~= Seq::new(ONE_SECOND_OF_SAMPLES as nat, |i: int| SILENCE));
        Ok(audio_file)
    }

    /// Saves the file to the given path. No encoder is behind this yet: nothing is
    /// written, and every path is accepted.
    pub fn save<P: AsRef<Path>>(&self, _path: P) -> (saved: Result<(), String>)
        ensures
            saved is Ok,
    {
        Ok(())
    }
}

/// A playback device.
pub struct AudioDevice {
    is_initialized: bool,
    is_playing: bool,
}

impl AudioDevice {
    /// Whether the device was initialized.
    pub closed spec fn initialized(&self) -> bool {
        self.is_initialized
    }

    /// Whether the device is playing.
    pub closed spec fn playing(&self) -> bool {
        self.is_playing
    }

    /// Initializes the device. It starts out silent.
    pub fn new() -> (device: Result<AudioDevice, String>)
        ensures
            device matches Ok(d) && d.initialized() && !d.playing(),
    {
        Ok(AudioDevice { is_initialized: true, is_playing: false })
    }

    /// Starts playback of interleaved samples, each given by its bit
    /// pattern.
    ///
    /// An initialized device accepts any samples and is playing afterwards.
    /// A device that is not initialized refuses and is left as it was.
    pub fn play(&mut self, _audio_data: &[u32], _sample_rate: u32, _channels: u16) -> (started: Result<
        (),
        String,
    >)
        ensures
            final(self).initialized() == old(self).initialized(),
            old(self).initialized() ==> started is Ok && final(self).playing(),
            !old(self).initialized() ==> final(self).playing() == old(self).playing() && (
            started matches Err(reason) && reason@ == not_initialized_text()),
    {
        if !self.is_initialized {
            return Err("Audio device not initialized".to_owned());
        }
        self.is_playing = true;
        Ok(())
    }

    /// Stops playback.
    ///
    /// An initialized device is silent afterwards. A device that is not
    /// initialized refuses and is left as it was.
    pub fn stop(&mut self) -> (stopped: Result<(), String>)
        ensures
            final(self).initialized() == old(self).initialized(),
            old(self).initialized() ==> stopped is Ok && !final(self).playing(),
            !old(self).initialized() ==> final(self).playing() == old(self).playing() && (
            stopped matches Err(reason) && reason@ == not_initialized_text()),
    {
        if !self.is_initialized {
            return Err("Audio device not initialized".to_owned());
        }
        self.is_playing = false;
        Ok(())
    }

    /// Whether the device is playing.
    pub fn is_playing(&self) -> (playing: bool)
        ensures
            playing == self.playing(),
    {
        self.is_playing
    }
}

/// Runs the device through one cycle: initialize, play the given tone, stop.
///
/// Each step succeeds on a fresh device, so the test reports completion
/// whatever the tone holds.
pub fn test_audio_system(test_tone: &AudioFile) -> (report: Result<String, String>)
    ensures
        report matches Ok(text) && text@ == test_completed_text(),
{
    let mut device = match AudioDevice::new() {
        Ok(device) => device,
        Err(reason) => {
            return Err(reason);
        },
    };
    match device.play(test_tone.samples.as_slice(), test_tone.sample_rate, test_tone.channels) {
        Ok(()) => {},
        Err(reason) => {
            return Err(reason);
        },
    }
    match device.stop() {
        Ok(()) => {},
        Err(reason) => {
            return Err(reason);
        },
    }
    Ok("Audio system test completed successfully".to_owned())
}

} // verus!
