//! Text whose ownership passes to the host.
//!
//! An [`OwnedString`] is a run of non-zero bytes closed by one zero byte, the
//! shape a C caller expects. It has one owner at a time: it cannot be
//! duplicated, and [`free_string`] takes it by value, so a handle is released
//! at most once.

use vstd::prelude::*;
use vstd::string::*;
use vstd::utf8::*;
use crate::text::find_terminator;
use crate::text::lemma_plain_text_bytes;

verus! {

/// What crosses the boundary for `content`: the content itself where it
/// holds no terminator, the fallback otherwise.
pub open spec fn transported(content: Seq<u8>, fallback: Seq<u8>) -> Seq<u8> {
    if content.contains(0u8) {
        fallback
    } else {
        content
    }
}

/// The payload that stands in for text that cannot cross the boundary.
pub open spec fn internal_error_payload() -> Seq<char> {
    "Internal error: text held an embedded terminator."@
}

/// Boundary-owned text: the content followed by its terminator.
pub struct OwnedString {
    bytes: Vec<u8>,
}

impl View for OwnedString {
    type V = Seq<u8>;

    /// The content, without the terminator.
    closed spec fn view(&self) -> Seq<u8> {
        self.bytes@.drop_last()
    }
}

impl OwnedString {
    #[verifier::type_invariant]
    spec fn terminated(self) -> bool {
        &&& self.bytes@.len() >= 1
        &&& self.bytes@.last() == 0u8
        &&& !self.bytes@.drop_last().contains(0u8)
    }

    /// Copies `content` and closes it with a terminator.
    ///
    /// The result is `None` exactly when `content` holds a zero byte, which
    /// the terminated form cannot carry.
    pub fn new(content: &[u8]) -> (owned: Option<OwnedString>)
        ensures
            owned is None <==> content@.contains(0u8),
            owned matches Some(s) ==> s@ == content@,
    {
        if find_terminator(content).is_some() {
            return None;
        }
        let mut bytes: Vec<u8> = Vec::with_capacity(content.len());
        let mut i: usize = 0;
        while i < content.len()
            invariant
                i <= content@.len(),
                bytes@ == content@.subrange(0, i as int),
            decreases content@.len() - i,
        {
            bytes.push(content[i]);
            i += 1;
            assert(bytes@ =~= content@.subrange(0, i as int));
        }
        assert(bytes@ =~= content@);
        bytes.push(0u8);
        assert(bytes@.drop_last() =~= content@);
        Some(OwnedString { bytes })
    }

    /// Takes over bytes that the host gives back: content and terminator.
    ///
    /// The result is `None` exactly when `raw` is not text followed by its
    /// terminator: when it is empty, does not end in zero, or holds a zero
    /// before its end.
    pub fn from_bytes_with_nul(raw: Vec<u8>) -> (owned: Option<OwnedString>)
        ensures
            owned is Some <==> raw@.len() >= 1 && raw@.last() == 0u8 && !raw@.drop_last().contains(
                0u8,
            ),
            owned matches Some(s) ==> s@ == raw@.drop_last(),
    {
        match find_terminator(raw.as_slice()) {
            Some(position) => {
                if position == raw.len() - 1 {
                    assert forall|j: int| 0 <= j < raw@.drop_last().len() implies raw@.drop_last()[j]
                        != 0u8 by {
                        assert(raw@.drop_last()[j] == raw@[j]);
                    }
                    Some(OwnedString { bytes: raw })
                } else {
                    proof {
                        if raw@.last() == 0u8 {
                            assert(raw@.drop_last()[position as int] == 0u8);
                        }
                    }
                    None
                }
            },
            None => {
                proof {
                    if raw@.len() >= 1 {
                        assert(raw@.contains(raw@.last()));
                    }
                }
                None
            },
        }
    }

    /// Copies `content`, or `fallback` where `content` cannot be carried.
    pub fn new_or(content: &[u8], fallback: &str) -> (owned: OwnedString)
        requires
            !fallback.spec_bytes().contains(0u8),
        ensures
            owned@ == transported(content@, fallback.spec_bytes()),
    {
        match OwnedString::new(content) {
            Some(owned) => owned,
            None => {
                match OwnedString::new(fallback.as_bytes()) {
                    Some(owned) => owned,
                    None => OwnedString::empty(),
                }
            },
        }
    }

    /// The empty text.
    pub fn empty() -> (owned: OwnedString)
        ensures
            owned@ == Seq::<u8>::empty(),
    {
        let mut bytes: Vec<u8> = Vec::new();
        bytes.push(0u8);
        assert(bytes@.drop_last() =~= Seq::<u8>::empty());
        OwnedString { bytes }
    }

    /// The number of content bytes.
    pub fn len(&self) -> (n: usize)
        ensures
            n == self@.len(),
    {
        proof {
            use_type_invariant(self);
        }
        self.bytes.len() - 1
    }

    /// The content, without the terminator. No byte of it is zero.
    pub fn as_bytes(&self) -> (content: &[u8])
        ensures
            content@ == self@,
            !content@.contains(0u8),
    {
        proof {
            use_type_invariant(self);
        }
        let n = self.bytes.len() - 1;
        let content = vstd::slice::slice_subrange(self.bytes.as_slice(), 0, n);
        assert(content@ =~= self.bytes@.drop_last());
        content
    }

    /// The content and its terminator, as the host reads them.
    pub fn as_bytes_with_nul(&self) -> (raw: &[u8])
        ensures
            raw@ == self@.push(0u8),
            !self@.contains(0u8),
    {
        proof {
            use_type_invariant(self);
            assert(self.bytes@ =~= self.bytes@.drop_last().push(0u8));
        }
        self.bytes.as_slice()
    }

    /// Gives up the content and its terminator as a plain vector.
    pub fn into_bytes_with_nul(self) -> (raw: Vec<u8>)
        ensures
            raw@ == self@.push(0u8),
            !self@.contains(0u8),
    {
        proof {
            use_type_invariant(&self);
            assert(self.bytes@ =~= self.bytes@.drop_last().push(0u8));
        }
        self.bytes
    }
}

/// Hands `content` to the host as boundary-owned text.
///
/// Content with an embedded terminator cannot be carried; the fixed
/// internal-error payload is handed over in its place, so the call never
/// fails.
pub fn alloc_string(content: &str) -> (owned: OwnedString)
    ensures
        owned@ == transported(content.spec_bytes(), encode_utf8(internal_error_payload())),
        valid_utf8(owned@),
{
    let fallback = "Internal error: text held an embedded terminator.";
    proof {
        reveal_strlit("Internal error: text held an embedded terminator.");
        lemma_plain_text_bytes(fallback@);
        encode_utf8_valid_utf8(fallback@);
        encode_utf8_valid_utf8(content@);
    }
    OwnedString::new_or(content.as_bytes(), fallback)
}

/// Takes back text that was handed to the host.
///
/// An absent handle is accepted and nothing happens. A present one is
/// consumed here, and with it the only way to reach its bytes.
pub fn free_string(string: Option<OwnedString>) {
    match string {
        Some(owned) => {
            let _ = owned.into_bytes_with_nul();
        },
        None => {},
    }
}

} // verus!
