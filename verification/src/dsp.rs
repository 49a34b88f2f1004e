//! The processing engine: stem separation, the spectrogram and the filter.
//!
//! Samples are carried as the bit patterns of 32-bit floating-point numbers.
//! The engine never looks inside one: where two channels have to become one,
//! the caller's mixer says what a pair of samples turns into.

use vstd::prelude::*;
use vstd::string::*;
use crate::text::append_decimal;
use crate::text::decimal_text;

verus! {

/// A one-dimensional array of samples.
#[verifier::external_body]
pub struct StemArray {
    inner: ndarray::Array1<u32>,
}

/// The samples that an array holds, first to last.
pub uninterp spec fn stem_samples(stem: StemArray) -> Seq<u32>;

impl View for StemArray {
    type V = Seq<u32>;

    open spec fn view(&self) -> Seq<u32> {
        stem_samples(*self)
    }
}

impl StemArray {
    /// `ndarray::Array1::from_vec`: the array takes over the vector and
    /// holds its elements in the same order. The length check of that
    /// function concerns element types of size zero only.
    #[verifier::external_body]
    pub(crate) fn from_vec(samples: Vec<u32>) -> (stem: StemArray)
        ensures
            stem_samples(stem) == samples@,
    {
        StemArray { inner: ndarray::Array1::from_vec(samples) }
    }

    /// `ndarray::Array1::zeros`: an array of `len` elements, each zero. That
    /// function panics where `len` is above `isize::MAX`, and the vector it
    /// allocates must stay within `isize` in bytes. With one axis the bound
    /// on the bytes keeps both in range.
    #[verifier::external_body]
    pub(crate) fn zeros(len: usize) -> (stem: StemArray)
        requires
            len * 4 <= isize::MAX,
        ensures
            stem_samples(stem) == Seq::new(len as nat, |i: int| 0u32),
    {
        StemArray { inner: ndarray::Array1::zeros(len) }
    }

    /// `Clone::clone` of `ndarray::Array1`: a second array with the same
    /// elements in the same order.
    #[verifier::external_body]
    pub(crate) fn duplicate(&self) -> (copy: StemArray)
        ensures
            stem_samples(copy) == stem_samples(*self),
    {
        StemArray { inner: self.inner.clone() }
    }

    /// `ndarray::Array1::to_vec`: the elements, first to last, in a vector
    /// of their own.
    #[verifier::external_body]
    pub(crate) fn to_vec(&self) -> (samples: Vec<u32>)
        ensures
            samples@ == stem_samples(*self),
    {
        self.inner.to_vec()
    }
}

/// The four stems of one piece of audio.
pub struct SeparatedStems {
    pub vocals: StemArray,
    pub drums: StemArray,
    pub bass: StemArray,
    pub other: StemArray,
    pub sample_rate: u32,
}

impl SeparatedStems {
    /// Four empty stems at the given sample rate.
    pub fn new(sample_rate: u32) -> (stems: SeparatedStems)
        ensures
            stems.sample_rate == sample_rate,
            stems.vocals@ == Seq::<u32>::empty(),
            stems.drums@ == Seq::<u32>::empty(),
            stems.bass@ == Seq::<u32>::empty(),
            stems.other@ == Seq::<u32>::empty(),
    {
        let stems = SeparatedStems {
            vocals: StemArray::zeros(0),
            drums: StemArray::zeros(0),
            bass: StemArray::zeros(0),
            other: StemArray::zeros(0),
            sample_rate,
        };
        assert(stems.vocals@ =~= Seq::<u32>::empty());
        assert(stems.drums@ =~= Seq::<u32>::empty());
        assert(stems.bass@ =~= Seq::<u32>::empty());
        assert(stems.other@ =~= Seq::<u32>::empty());
        stems
    }
}

/// Whether `mono` is what `audio` of `channels` interleaved channels mixes
/// down to.
///
/// One channel is taken as it is. Two channels are taken frame by frame:
/// each mono sample is what the mixer makes of the frame's pair, and a
/// trailing sample without a partner is dropped.
pub open spec fn mixed_down<F: Fn(u32, u32) -> u32>(
    audio: Seq<u32>,
    channels: u16,
    mix: F,
    mono: Seq<u32>,
) -> bool {
    if channels == 1 {
        mono == audio
    } else {
        &&& mono.len() == audio.len() / 2
        &&& forall|i: int|
            0 <= i < mono.len() ==> call_ensures(mix, (audio[2 * i], audio[2 * i + 1]), #[trigger] mono[i])
    }
}

/// The complaint about a channel count that is neither one nor two.
pub open spec fn unsupported_channels_text(channels: u16) -> Seq<char> {
    "Unsupported number of channels: "@ + decimal_text(channels as nat)
        + ". Only mono (1) and stereo (2) are supported."@
}

/// Separates audio into its stems: vocals, drums, bass and the rest.
///
/// Mono and stereo input is accepted; any other channel count is refused
/// with a message that names it. The input is mixed down to one channel, and
/// each of the four stems is a copy of that mix.
pub fn separate_stems<F: Fn(u32, u32) -> u32>(
    audio_data: &[u32],
    channels: u16,
    sample_rate: u32,
    mix: F,
) -> (stems: Result<SeparatedStems, String>)
    requires
        forall|a: u32, b: u32| call_requires(mix, (a, b)),
    ensures
        match stems {
            Ok(s) => {
                &&& channels == 1 || channels == 2
                &&& s.sample_rate == sample_rate
                &&& mixed_down(audio_data@, channels, mix, s.vocals@)
                &&& s.vocals@.len() == audio_data@.len() / (channels as nat)
                &&& s.drums@ == s.vocals@
                &&& s.bass@ == s.vocals@
                &&& s.other@ == s.vocals@
            },
            Err(reason) => {
                &&& channels != 1 && channels != 2
                &&& reason@ == unsupported_channels_text(channels)
            },
        },
{
    let mono_audio: StemArray;
    if channels == 2 {
        let len: usize = audio_data.len();
        let frames: usize = len / 2;
        let mut mono: Vec<u32> = Vec::with_capacity(frames);
        let mut i: usize = 0;
        while i < frames
            invariant
                len == audio_data@.len(),
                frames == len / 2,
                i <= frames,
                mono@.len() == i,
                forall|a: u32, b: u32| call_requires(mix, (a, b)),
                forall|k: int|
                    0 <= k < i ==> call_ensures(
                        mix,
                        (audio_data@[2 * k], audio_data@[2 * k + 1]),
                        #[trigger] mono@[k],
                    ),
            decreases frames - i,
        {
            let mixed = mix(audio_data[2 * i], audio_data[2 * i + 1]);
            mono.push(mixed);
            i += 1;
        }
        mono_audio = StemArray::from_vec(mono);
    } else if channels == 1 {
        mono_audio = StemArray::from_vec(vstd::slice::slice_to_vec(audio_data));
    } else {
        let mut reason = "Unsupported number of channels: ".to_owned();
        append_decimal(&mut reason, channels as u64);
        reason.append(". Only mono (1) and stereo (2) are supported.");
        return Err(reason);
    }
    let vocals_stem = mono_audio.duplicate();
    let drums_stem = mono_audio.duplicate();
    let bass_stem = mono_audio.duplicate();
    let other_stem = mono_audio.duplicate();
    Ok(
        SeparatedStems {
            vocals: vocals_stem,
            drums: drums_stem,
            bass: bass_stem,
            other: other_stem,
            sample_rate,
        },
    )
}

/// A two-dimensional array of magnitudes, each given by its bit pattern.
#[verifier::external_body]
pub struct Spectrogram {
    inner: ndarray::Array2<u32>,
}

/// The magnitudes that a spectrogram holds, row by row.
pub uninterp spec fn spectrogram_rows(spectrogram: Spectrogram) -> Seq<Seq<u32>>;

impl View for Spectrogram {
    type V = Seq<Seq<u32>>;

    open spec fn view(&self) -> Seq<Seq<u32>> {
        spectrogram_rows(*self)
    }
}

impl Spectrogram {
    /// `ndarray::Array2::zeros`: an array of `rows` rows of `columns`
    /// elements, each zero. That function panics where the product of the
    /// axis lengths that are not zero is above `isize::MAX`; an axis of
    /// length zero does not excuse the other. It then allocates a vector of
    /// `rows * columns` elements, whose size in bytes must stay within
    /// `isize` too. The precondition keeps both in range.
    #[verifier::external_body]
    pub(crate) fn zeros(rows: usize, columns: usize) -> (spectrogram: Spectrogram)
        requires
            rows * columns * 4 <= isize::MAX,
            rows == 0 ==> columns <= isize::MAX,
            columns == 0 ==> rows <= isize::MAX,
        ensures
            spectrogram_rows(spectrogram) == Seq::new(
                rows as nat,
                |r: int| Seq::new(columns as nat, |c: int| 0u32),
            ),
    {
        Spectrogram { inner: ndarray::Array2::zeros((rows, columns)) }
    }

    /// `ndarray::Array2::nrows`: the number of rows.
    #[verifier::external_body]
    pub(crate) fn row_count(&self) -> (rows: usize)
        ensures
            rows == spectrogram_rows(*self).len(),
    {
        self.inner.nrows()
    }

    /// `ndarray::Array2::row`, its view copied out with `to_vec`: the
    /// elements of one row, first to last. The precondition keeps the index
    /// in bounds, beyond which that function panics.
    #[verifier::external_body]
    pub(crate) fn row(&self, index: usize) -> (row: Vec<u32>)
        requires
            index < spectrogram_rows(*self).len(),
        ensures
            row@ == spectrogram_rows(*self)[index as int],
    {
        self.inner.row(index).to_vec()
    }

    /// The magnitudes, row by row.
    pub fn to_rows(&self) -> (rows: Vec<Vec<u32>>)
        ensures
            rows@.len() == self@.len(),
            forall|r: int| 0 <= r < rows@.len() ==> (#[trigger] rows@[r])@ == self@[r],
    {
        let count = self.row_count();
        let mut rows: Vec<Vec<u32>> = Vec::with_capacity(count);
        let mut index: usize = 0;
        while index < count
            invariant
                count == self@.len(),
                index <= count,
                rows@.len() == index,
                forall|r: int| 0 <= r < index ==> (#[trigger] rows@[r])@ == self@[r],
            decreases count - index,
        {
            rows.push(self.row(index));
            index += 1;
        }
        rows
    }
}

/// The number of rows of a spectrogram.
pub const STFT_ROWS: usize = 100;

/// The number of columns of a spectrogram.
pub const STFT_COLUMNS: usize = 100;

/// Computes the short-time Fourier transform of a signal. No transform is
/// behind this yet: every signal gives a spectrogram of zeros, 100 rows by
/// 100 columns, whatever the window and the hop.
pub fn compute_stft(_audio_data: &[u32], _window_size: usize, _hop_size: usize) -> (spectrogram:
    Spectrogram)
    ensures
        spectrogram@ == Seq::new(
            STFT_ROWS as nat,
            |r: int| Seq::new(STFT_COLUMNS as nat, |c: int| 0u32),
        ),
{
    Spectrogram::zeros(STFT_ROWS, STFT_COLUMNS)
}

/// Applies a filter to a signal. The filter is the identity: the signal
/// comes back sample for sample, whatever the coefficients.
pub fn apply_filter(audio_data: &[u32], _filter_coeffs: &[u32]) -> (filtered: Vec<u32>)
    ensures
        filtered@ == audio_data@,
{
    vstd::slice::slice_to_vec(audio_data)
}

} // verus!
