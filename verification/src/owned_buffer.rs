//! Sample buffers whose ownership passes to the host.
//!
//! An [`OwnedBuffer`] is one contiguous run of samples. The host receives it
//! together with its length and gives both back to [`free_stem_memory`] when
//! it is done. A buffer has one owner at a time: it cannot be duplicated, and
//! release takes it by value, so a buffer is released at most once.

use vstd::prelude::*;
use crate::dsp::SeparatedStems;
use crate::dsp::StemArray;
use crate::status::StatusCode;

verus! {

/// The number of buffers that one separation hands over.
pub const STEM_COUNT: usize = 4;

/// A boundary-owned run of samples, each given by its bit pattern.
pub struct OwnedBuffer {
    samples: Vec<u32>,
}

impl View for OwnedBuffer {
    type V = Seq<u32>;

    closed spec fn view(&self) -> Seq<u32> {
        self.samples@
    }
}

impl OwnedBuffer {
    /// Takes over `samples` as a buffer.
    pub fn from_vec(samples: Vec<u32>) -> (buffer: OwnedBuffer)
        ensures
            buffer@ == samples@,
    {
        OwnedBuffer { samples }
    }

    /// The number of samples, which is the length reported to the host.
    pub fn len(&self) -> (length: usize)
        ensures
            length == self@.len(),
    {
        self.samples.len()
    }

    /// The samples.
    pub fn as_slice(&self) -> (samples: &[u32])
        ensures
            samples@ == self@,
    {
        self.samples.as_slice()
    }

    /// Gives up the samples as a plain vector.
    pub fn into_vec(self) -> (samples: Vec<u32>)
        ensures
            samples@ == self@,
    {
        self.samples
    }
}

/// The samples of the stem that goes into slot `index`: vocals, drums, bass
/// and the rest, in this order.
pub open spec fn stem_at(stems: SeparatedStems, index: int) -> Seq<u32> {
    if index == 0 {
        stems.vocals@
    } else if index == 1 {
        stems.drums@
    } else if index == 2 {
        stems.bass@
    } else {
        stems.other@
    }
}

/// The name of the stem that goes into slot `index`.
pub open spec fn stem_label_text(index: int) -> Seq<char> {
    if index == 0 {
        "vocals"@
    } else if index == 1 {
        "drums"@
    } else if index == 2 {
        "bass"@
    } else {
        "other"@
    }
}

/// The name of the stem that goes into slot `index`, for the slots that
/// exist.
pub fn stem_label(index: usize) -> (label: Option<&'static str>)
    ensures
        label is Some <==> index < STEM_COUNT,
        label matches Some(name) ==> name@ == stem_label_text(index as int),
{
    if index == 0 {
        Some("vocals")
    } else if index == 1 {
        Some("drums")
    } else if index == 2 {
        Some("bass")
    } else if index == 3 {
        Some("other")
    } else {
        None
    }
}

fn buffer_of(stem: &StemArray) -> (buffer: OwnedBuffer)
    ensures
        buffer@ == stem@,
{
    OwnedBuffer::from_vec(stem.to_vec())
}

/// Copies the four stems into buffers of their own, one per slot.
///
/// A request for any other number of buffers is refused as invalid input
/// before anything is copied.
pub fn alloc_buffers(stems: &SeparatedStems, stem_count: usize) -> (buffers: Result<
    Vec<OwnedBuffer>,
    StatusCode,
>)
    ensures
        match buffers {
            Ok(b) => {
                &&& stem_count == STEM_COUNT
                &&& b@.len() == STEM_COUNT
                &&& forall|k: int| 0 <= k < STEM_COUNT ==> (#[trigger] b@[k])@ == stem_at(*stems, k)
            },
            Err(status) => stem_count != STEM_COUNT && status == StatusCode::InvalidInput,
        },
{
    if stem_count != STEM_COUNT {
        return Err(StatusCode::InvalidInput);
    }
    let mut buffers: Vec<OwnedBuffer> = Vec::with_capacity(STEM_COUNT);
    buffers.push(buffer_of(&stems.vocals));
    buffers.push(buffer_of(&stems.drums));
    buffers.push(buffer_of(&stems.bass));
    buffers.push(buffer_of(&stems.other));
    Ok(buffers)
}

/// Whether `length` is the length under which `buffer` was handed out, the
/// only length with which it may be released.
pub open spec fn releasable(buffer: OwnedBuffer, length: usize) -> bool {
    buffer@.len() == length
}

/// Takes back a buffer that was handed to the host.
///
/// An absent buffer is accepted and nothing happens. A present one must
/// come with the length that was reported for it; it is consumed here, and
/// with it the only way to reach its samples.
pub fn free_stem_memory(buffer: Option<OwnedBuffer>, length: usize)
    requires
        buffer matches Some(b) ==> releasable(b, length),
{
    match buffer {
        Some(owned) => {
            let _ = owned.into_vec();
        },
        None => {},
    }
}

} // verus!
