//! The channel through which a failing call leaves its diagnostic.
//!
//! A status code says that a call failed, not why. The reason is left in an
//! [`ErrorChannel`], one per calling thread, and the caller fetches it with
//! [`get_last_error_message`]. Fetching clears the channel. A second failure
//! before the fetch overwrites the first.

use vstd::prelude::*;
use vstd::string::*;
use vstd::utf8::*;
use crate::owned_string::transported;
use crate::owned_string::OwnedString;
use crate::status::StatusCode;
use crate::text::lemma_plain_text_bytes;
use crate::text::lemma_terminator_in_bytes;

verus! {

/// The text fetched from a channel that holds no diagnostic.
pub open spec fn no_error_text() -> Seq<char> {
    "No error"@
}

/// The diagnostic that replaces one that cannot be carried.
pub open spec fn malformed_message_text() -> Seq<char> {
    "Internal error: Malformed error message."@
}

/// The bytes kept for a diagnostic: its own, or those of the fixed
/// replacement where it holds an embedded terminator.
pub open spec fn recorded(message: Seq<char>) -> Seq<u8> {
    transported(encode_utf8(message), encode_utf8(malformed_message_text()))
}

/// What a fetch hands out for a channel whose pending diagnostic is `pending`.
pub open spec fn fetched(pending: Option<Seq<u8>>) -> Seq<u8> {
    match pending {
        Some(message) => message,
        None => encode_utf8(no_error_text()),
    }
}

/// The pending diagnostic after `message` was recorded over `pending`.
pub open spec fn after_record(pending: Option<Seq<u8>>, message: Seq<char>) -> Option<Seq<u8>> {
    Some(recorded(message))
}

/// The pending diagnostic after a fetch: none.
pub open spec fn after_fetch(pending: Option<Seq<u8>>) -> Option<Seq<u8>> {
    None
}

/// The most recent diagnostic of one calling thread.
pub struct ErrorChannel {
    last: Option<OwnedString>,
}

impl View for ErrorChannel {
    type V = Option<Seq<u8>>;

    /// The pending diagnostic, if one was recorded and not yet fetched.
    closed spec fn view(&self) -> Option<Seq<u8>> {
        match self.last {
            Some(message) => Some(message@),
            None => None,
        }
    }
}

impl ErrorChannel {
    #[verifier::type_invariant]
    spec fn holds_text(self) -> bool {
        self.last matches Some(message) ==> valid_utf8(message@)
    }

    /// A channel with nothing pending.
    pub fn new() -> (channel: ErrorChannel)
        ensures
            channel@ is None,
    {
        ErrorChannel { last: None }
    }

    /// Whether a diagnostic is pending.
    pub fn has_error(&self) -> (pending: bool)
        ensures
            pending == (self@ is Some),
    {
        self.last.is_some()
    }

    /// Records `message` as the pending diagnostic, in place of any earlier
    /// one.
    pub fn set_error(&mut self, message: &str)
        ensures
            final(self)@ == after_record(old(self)@, message@),
    {
        let fallback = "Internal error: Malformed error message.";
        proof {
            reveal_strlit("Internal error: Malformed error message.");
            lemma_plain_text_bytes(fallback@);
            encode_utf8_valid_utf8(fallback@);
            encode_utf8_valid_utf8(message@);
        }
        self.last = Some(OwnedString::new_or(message.as_bytes(), fallback));
    }

    /// Records `message` for a call that fails with `status`, and gives the
    /// status back for the call to return.
    pub fn fail(&mut self, status: StatusCode, message: &str) -> (reported: StatusCode)
        ensures
            reported == status,
            final(self)@ == after_record(old(self)@, message@),
    {
        self.set_error(message);
        status
    }

    /// Hands out the pending diagnostic and clears the channel; hands out
    /// "No error" where nothing is pending.
    pub fn take_error(&mut self) -> (message: OwnedString)
        ensures
            final(self)@ == after_fetch(old(self)@),
            message@ == fetched(old(self)@),
            valid_utf8(message@),
    {
        proof {
            use_type_invariant(&*self);
        }
        let mut previous = ErrorChannel { last: None };
        core::mem::swap(self, &mut previous);
        match previous.last {
            Some(message) => message,
            None => {
                let sentinel = "No error";
                proof {
                    reveal_strlit("No error");
                    lemma_plain_text_bytes(sentinel@);
                    encode_utf8_valid_utf8(sentinel@);
                }
                OwnedString::new_or(sentinel.as_bytes(), sentinel)
            },
        }
    }
}

/// Records `message` as the calling thread's diagnostic.
pub fn set_last_error(errors: &mut ErrorChannel, message: String)
    ensures
        final(errors)@ == after_record(old(errors)@, message@),
{
    errors.set_error(message.as_str());
}

/// Fetches the calling thread's diagnostic and clears it.
pub fn get_last_error_message(errors: &mut ErrorChannel) -> (message: OwnedString)
    ensures
        final(errors)@ == after_fetch(old(errors)@),
        message@ == fetched(old(errors)@),
        valid_utf8(message@),
{
    errors.take_error()
}

/// Fetching is read-and-clear. With nothing recorded a fetch gives
/// "No error". After a diagnostic was recorded, whatever was pending before,
/// a fetch gives that diagnostic: the message itself where it holds no
/// terminator character. And the fetch that follows any fetch gives
/// "No error" again.
pub proof fn lemma_fetch_reads_and_clears(pending: Option<Seq<u8>>, message: Seq<char>)
    ensures
        fetched(None) == encode_utf8(no_error_text()),
        fetched(after_record(pending, message)) == recorded(message),
        !message.contains('\0') ==> fetched(after_record(pending, message)) == encode_utf8(
            message,
        ),
        fetched(after_fetch(pending)) == encode_utf8(no_error_text()),
        fetched(after_fetch(after_record(pending, message))) == encode_utf8(no_error_text()),
{
    lemma_terminator_in_bytes(message);
}

} // verus!
