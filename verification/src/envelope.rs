//! The envelope: the JSON shape in which success and failure are reported as
//! text.
//!
//! An envelope has three fields: `status`, `result` and `error`. A success
//! carries a result and no error; a failure carries an error and no result.
//! The two are the two variants of [`JsonEnvelope`], so no envelope can hold
//! both or neither.

use vstd::prelude::*;
use vstd::string::*;
use vstd::utf8::*;
use crate::owned_string::transported;
use crate::owned_string::OwnedString;
use crate::text::lemma_plain_text_bytes;

verus! {

/// The byte `"`.
pub const QUOTE: u8 = 0x22;

/// The byte `\`.
pub const BACKSLASH: u8 = 0x5c;

/// The digit that stands for `nibble` in hexadecimal, in lower case.
pub open spec fn hex_digit_of(nibble: u8) -> u8
    recommends
        nibble < 16,
{
    if nibble < 10 {
        (0x30 + nibble) as u8
    } else {
        (0x61 + nibble - 10) as u8
    }
}

/// The value of a hexadecimal digit in lower case.
pub open spec fn hex_value_of(digit: u8) -> u8 {
    if 0x30 <= digit <= 0x39 {
        (digit - 0x30) as u8
    } else {
        (digit - 0x61 + 10) as u8
    }
}

/// How one byte of text is written inside a JSON string.
///
/// The quote and the backslash get a backslash in front. The control
/// characters with a short name (backspace, tab, line feed, form feed,
/// carriage return) are written by it, the others below the space as
/// `\u00` and two hexadecimal digits. Every other byte stands for itself.
pub open spec fn escaped_byte(byte: u8) -> Seq<u8> {
    if byte == QUOTE {
        seq![BACKSLASH, QUOTE]
    } else if byte == BACKSLASH {
        seq![BACKSLASH, BACKSLASH]
    } else if byte == 0x08 {
        seq![BACKSLASH, 0x62u8]
    } else if byte == 0x09 {
        seq![BACKSLASH, 0x74u8]
    } else if byte == 0x0a {
        seq![BACKSLASH, 0x6eu8]
    } else if byte == 0x0c {
        seq![BACKSLASH, 0x66u8]
    } else if byte == 0x0d {
        seq![BACKSLASH, 0x72u8]
    } else if byte < 0x20 {
        seq![
            BACKSLASH,
            0x75u8,
            0x30u8,
            0x30u8,
            hex_digit_of(byte / 16),
            hex_digit_of(byte % 16),
        ]
    } else {
        seq![byte]
    }
}

/// How text is written inside a JSON string: byte by byte.
pub open spec fn escaped(text: Seq<u8>) -> Seq<u8>
    decreases text.len(),
{
    if text.len() == 0 {
        Seq::<u8>::empty()
    } else {
        escaped_byte(text[0]) + escaped(text.drop_first())
    }
}

/// The byte that the escape at the head of `written` stands for, and the
/// number of bytes that the escape takes up.
pub open spec fn unescaped_head(written: Seq<u8>) -> (u8, int)
    recommends
        written.len() > 0,
{
    if written[0] != BACKSLASH || written.len() < 2 {
        (written[0], 1)
    } else if written[1] == 0x62 {
        (0x08u8, 2)
    } else if written[1] == 0x74 {
        (0x09u8, 2)
    } else if written[1] == 0x6e {
        (0x0au8, 2)
    } else if written[1] == 0x66 {
        (0x0cu8, 2)
    } else if written[1] == 0x72 {
        (0x0du8, 2)
    } else if written[1] == 0x75 && written.len() >= 6 {
        ((hex_value_of(written[4]) * 16 + hex_value_of(written[5])) as u8, 6)
    } else {
        (written[1], 2)
    }
}

/// The text that was written as `written` inside a JSON string.
pub open spec fn unescaped(written: Seq<u8>) -> Seq<u8>
    decreases written.len(),
{
    if written.len() == 0 {
        Seq::<u8>::empty()
    } else {
        let (byte, width) = unescaped_head(written);
        if width <= written.len() {
            seq![byte] + unescaped(written.skip(width))
        } else {
            seq![byte]
        }
    }
}

/// Escaping goes piece by piece: what is written for two texts in a row is
/// what is written for the first, followed by what is written for the
/// second.
pub proof fn lemma_escaped_concat(first: Seq<u8>, second: Seq<u8>)
    ensures
        escaped(first + second) == escaped(first) + escaped(second),
    decreases first.len(),
{
    if first.len() == 0 {
        assert(first + second =~= second);
        assert(escaped(first) + escaped(second) =~= escaped(second));
    } else {
        assert((first + second).drop_first() =~= first.drop_first() + second);
        lemma_escaped_concat(first.drop_first(), second);
        assert(escaped(first + second) =~= escaped(first) + escaped(second));
    }
}

/// What is written for one more byte.
pub proof fn lemma_escaped_push(text: Seq<u8>, byte: u8)
    ensures
        escaped(text.push(byte)) == escaped(text) + escaped_byte(byte),
{
    let single = seq![byte];
    assert(text.push(byte) =~= text + single);
    lemma_escaped_concat(text, single);
    assert(escaped(single) =~= escaped_byte(byte)) by {
        reveal_with_fuel(escaped, 2);
    }
}

/// Escaped text holds no zero byte, no bare quote and nothing below the
/// space: it can stand between the quotes of a JSON string, and it can be
/// carried as terminated text.
pub proof fn lemma_escaped_is_clean(text: Seq<u8>)
    ensures
        !escaped(text).contains(0u8),
        forall|i: int| 0 <= i < escaped(text).len() ==> #[trigger] escaped(text)[i] >= 0x20,
    decreases text.len(),
{
    if text.len() > 0 {
        lemma_escaped_is_clean(text.drop_first());
        let head = escaped_byte(text[0]);
        let tail = escaped(text.drop_first());
        assert forall|i: int| 0 <= i < head.len() implies #[trigger] head[i] >= 0x20 by {
            lemma_escaped_byte_is_clean(text[0]);
        }
        assert forall|i: int| 0 <= i < escaped(text).len() implies #[trigger] escaped(text)[i]
            >= 0x20 by {
            if i < head.len() {
                assert(escaped(text)[i] == head[i]);
            } else {
                assert(escaped(text)[i] == tail[i - head.len()]);
            }
        }
    }
    assert forall|i: int| 0 <= i < escaped(text).len() implies escaped(text)[i] != 0u8 by {
        assert(escaped(text)[i] >= 0x20);
    }
}

proof fn lemma_escaped_byte_is_clean(byte: u8)
    ensures
        forall|i: int| 0 <= i < escaped_byte(byte).len() ==> #[trigger] escaped_byte(byte)[i] >= 0x20,
        1 <= escaped_byte(byte).len() <= 6,
{
}

proof fn lemma_unescaped_head(byte: u8, rest: Seq<u8>)
    ensures
        unescaped_head(escaped_byte(byte) + rest) == (byte, escaped_byte(byte).len() as int),
{
    let written = escaped_byte(byte) + rest;
    if byte < 0x20 && byte != 0x08 && byte != 0x09 && byte != 0x0a && byte != 0x0c && byte != 0x0d {
        assert(written[0] == BACKSLASH);
        assert(written[1] == 0x75u8);
        assert(written[4] == hex_digit_of(byte / 16));
        assert(written[5] == hex_digit_of(byte % 16));
        assert(hex_value_of(hex_digit_of(byte / 16)) == byte / 16);
        assert(hex_value_of(hex_digit_of(byte % 16)) == byte % 16);
    } else {
        assert(written[0] == escaped_byte(byte)[0]);
        if escaped_byte(byte).len() == 2 {
            assert(written[1] == escaped_byte(byte)[1]);
        }
    }
}

/// Escaping loses nothing: reading back what was written gives the text
/// again.
pub proof fn lemma_unescaped_escaped(text: Seq<u8>)
    ensures
        unescaped(escaped(text)) == text,
    decreases text.len(),
{
    if text.len() == 0 {
    } else {
        let head = escaped_byte(text[0]);
        let tail = escaped(text.drop_first());
        lemma_unescaped_head(text[0], tail);
        lemma_escaped_byte_is_clean(text[0]);
        lemma_unescaped_escaped(text.drop_first());
        assert((head + tail).skip(head.len() as int) =~= tail);
        assert(seq![text[0]] + text.drop_first() =~= text);
    }
}

/// What stands before the error text of a failure envelope.
pub open spec fn failure_head() -> Seq<char> {
    "{\"status\":\"error\",\"error\":\""@
}

/// What stands after the error text of a failure envelope.
pub open spec fn failure_tail() -> Seq<char> {
    "\",\"result\":null}"@
}

/// What stands before the result of a success envelope.
pub open spec fn success_head() -> Seq<char> {
    "{\"status\":\"ok\",\"result\":"@
}

/// What stands after the result of a success envelope.
pub open spec fn success_tail() -> Seq<char> {
    ",\"error\":null}"@
}

/// The envelope that stands in for one that cannot be carried.
pub open spec fn fallback_envelope() -> Seq<char> {
    "{\"status\":\"error\",\"error\":\"Internal error: envelope could not be encoded.\",\"result\":null}"@
}

/// The text of the failure envelope with the given error text.
pub open spec fn failure_json(error: Seq<u8>) -> Seq<u8> {
    encode_utf8(failure_head()) + escaped(error) + encode_utf8(failure_tail())
}

/// The text of the success envelope with the given result, which is JSON
/// text already.
pub open spec fn success_json(result: Seq<u8>) -> Seq<u8> {
    encode_utf8(success_head()) + result + encode_utf8(success_tail())
}

/// Whether `piece` stands somewhere in `whole`, byte for byte.
pub open spec fn occurs_in(piece: Seq<u8>, whole: Seq<u8>) -> bool {
    exists|start: int|
        0 <= start && start + piece.len() <= whole.len() && #[trigger] whole.subrange(
            start,
            start + piece.len(),
        ) == piece
}

/// A report of success or failure.
pub enum JsonEnvelope {
    /// The operation succeeded; `result` is its payload, as JSON text.
    Success { result: String },
    /// The operation failed; `error` says why, for a human reader.
    Failure { error: String },
}

impl JsonEnvelope {
    /// The text of this envelope.
    pub open spec fn json(self) -> Seq<u8> {
        match self {
            JsonEnvelope::Success { result } => success_json(encode_utf8(result@)),
            JsonEnvelope::Failure { error } => failure_json(encode_utf8(error@)),
        }
    }

    /// Whether this envelope reports a failure.
    pub fn is_failure(&self) -> (failed: bool)
        ensures
            failed == (self is Failure),
    {
        match self {
            JsonEnvelope::Success { .. } => false,
            JsonEnvelope::Failure { .. } => true,
        }
    }

    /// Writes this envelope out.
    pub fn to_json(&self) -> (text: Vec<u8>)
        ensures
            text@ == self.json(),
    {
        let mut text: Vec<u8> = Vec::new();
        match self {
            JsonEnvelope::Success { result } => {
                append_bytes(&mut text, "{\"status\":\"ok\",\"result\":".as_bytes());
                append_bytes(&mut text, result.as_str().as_bytes());
                append_bytes(&mut text, ",\"error\":null}".as_bytes());
            },
            JsonEnvelope::Failure { error } => {
                append_bytes(&mut text, "{\"status\":\"error\",\"error\":\"".as_bytes());
                append_escaped(&mut text, error.as_str().as_bytes());
                append_bytes(&mut text, "\",\"result\":null}".as_bytes());
            },
        }
        text
    }

    /// Hands this envelope to the host.
    ///
    /// An envelope whose text holds an embedded terminator cannot be
    /// carried; the fixed fallback envelope is handed over in its place. A
    /// failure envelope never needs it.
    pub fn to_owned_string(&self) -> (owned: OwnedString)
        ensures
            owned@ == transported(self.json(), encode_utf8(fallback_envelope())),
            self is Failure ==> owned@ == self.json(),
    {
        let fallback =
            "{\"status\":\"error\",\"error\":\"Internal error: envelope could not be encoded.\",\"result\":null}";
        proof {
            reveal_strlit(
                "{\"status\":\"error\",\"error\":\"Internal error: envelope could not be encoded.\",\"result\":null}",
            );
            lemma_plain_text_bytes(fallback@);
            if let JsonEnvelope::Failure { error } = self {
                lemma_failure_json_is_clean(encode_utf8(error@));
            }
        }
        let text = self.to_json();
        OwnedString::new_or(text.as_slice(), fallback)
    }
}

/// Appends `bytes` to `out`.
pub fn append_bytes(out: &mut Vec<u8>, bytes: &[u8])
    ensures
        final(out)@ == old(out)@ + bytes@,
{
    let mut i: usize = 0;
    while i < bytes.len()
        invariant
            i <= bytes@.len(),
            out@ == old(out)@ + bytes@.take(i as int),
        decreases bytes@.len() - i,
    {
        out.push(bytes[i]);
        i += 1;
        assert(out@ =~= old(out)@ + bytes@.take(i as int));
    }
    assert(bytes@.take(i as int) =~= bytes@);
}

fn hex_digit(nibble: u8) -> (digit: u8)
    requires
        nibble < 16,
    ensures
        digit == hex_digit_of(nibble),
{
    if nibble < 10 {
        0x30 + nibble
    } else {
        0x61 + (nibble - 10)
    }
}

/// Appends `text` to `out` as it is written inside a JSON string.
pub fn append_escaped(out: &mut Vec<u8>, text: &[u8])
    ensures
        final(out)@ == old(out)@ + escaped(text@),
{
    let mut i: usize = 0;
    assert(out@ =~= old(out)@ + escaped(text@.take(0)));
    while i < text.len()
        invariant
            i <= text@.len(),
            out@ == old(out)@ + escaped(text@.take(i as int)),
        decreases text@.len() - i,
    {
        let byte = text[i];
        let ghost before = out@;
        if byte == QUOTE {
            out.push(BACKSLASH);
            out.push(QUOTE);
        } else if byte == BACKSLASH {
            out.push(BACKSLASH);
            out.push(BACKSLASH);
        } else if byte == 0x08 {
            out.push(BACKSLASH);
            out.push(0x62);
        } else if byte == 0x09 {
            out.push(BACKSLASH);
            out.push(0x74);
        } else if byte == 0x0a {
            out.push(BACKSLASH);
            out.push(0x6e);
        } else if byte == 0x0c {
            out.push(BACKSLASH);
            out.push(0x66);
        } else if byte == 0x0d {
            out.push(BACKSLASH);
            out.push(0x72);
        } else if byte < 0x20 {
            out.push(BACKSLASH);
            out.push(0x75);
            out.push(0x30);
            out.push(0x30);
            out.push(hex_digit(byte / 16));
            out.push(hex_digit(byte % 16));
        } else {
            out.push(byte);
        }
        assert(out@ =~= before + escaped_byte(byte));
        proof {
            lemma_escaped_push(text@.take(i as int), byte);
            assert(text@.take(i as int).push(byte) =~= text@.take(i as int + 1));
        }
        i += 1;
    }
    assert(text@.take(i as int) =~= text@);
}

/// The failure envelope for `message`, ready for the host.
///
/// Whatever the message holds, the envelope carries it: escaping leaves no
/// byte that the terminated form could not hold.
pub fn error_envelope(message: &str) -> (owned: OwnedString)
    ensures
        owned@ == failure_json(message.spec_bytes()),
        valid_utf8(owned@),
{
    proof {
        lemma_failure_json_is_text(message@);
    }
    let envelope = JsonEnvelope::Failure { error: message.to_owned() };
    envelope.to_owned_string()
}

/// The text of a failure envelope holds no zero byte.
pub proof fn lemma_failure_json_is_clean(error: Seq<u8>)
    ensures
        !failure_json(error).contains(0u8),
{
    reveal_strlit("{\"status\":\"error\",\"error\":\"");
    reveal_strlit("\",\"result\":null}");
    lemma_plain_text_bytes(failure_head());
    lemma_plain_text_bytes(failure_tail());
    lemma_escaped_is_clean(error);
    let head = encode_utf8(failure_head());
    let body = escaped(error);
    let tail = encode_utf8(failure_tail());
    let whole = failure_json(error);
    assert forall|i: int| 0 <= i < whole.len() implies whole[i] != 0u8 by {
        if i < head.len() {
            assert(whole[i] == head[i]);
        } else if i < head.len() + body.len() {
            assert(whole[i] == body[i - head.len()]);
        } else {
            assert(whole[i] == tail[i - head.len() - body.len()]);
        }
    }
}

/// A failure envelope says `error` where a success envelope says `ok`: no
/// text is both.
pub proof fn lemma_failure_is_never_success(error: Seq<u8>, result: Seq<u8>)
    ensures
        failure_json(error) != success_json(result),
{
    reveal_strlit("{\"status\":\"error\",\"error\":\"");
    reveal_strlit("{\"status\":\"ok\",\"result\":");
    lemma_plain_text_bytes(failure_head());
    lemma_plain_text_bytes(success_head());
    let failure = failure_json(error);
    let success = success_json(result);
    assert(failure[11] == encode_utf8(failure_head())[11]);
    assert(success[11] == encode_utf8(success_head())[11]);
    assert(failure[11] == 0x65u8);
    assert(success[11] == 0x6fu8);
}

/// The error text that a failure envelope holds: what stands between its
/// head and its tail, read back.
pub open spec fn error_text_of(envelope: Seq<u8>) -> Seq<u8> {
    unescaped(
        envelope.subrange(
            encode_utf8(failure_head()).len() as int,
            envelope.len() - encode_utf8(failure_tail()).len(),
        ),
    )
}

/// The error text of a failure envelope can be read back from it.
pub proof fn lemma_failure_json_is_lossless(error: Seq<u8>)
    ensures
        error_text_of(failure_json(error)) == error,
{
    let text = failure_json(error);
    let from = encode_utf8(failure_head()).len() as int;
    let to = text.len() - encode_utf8(failure_tail()).len();
    assert(text.subrange(from, to) =~= escaped(error));
    lemma_unescaped_escaped(error);
}

/// A failure envelope has the failure shape: it opens with the status
/// `error` and the key of the error text, and it closes with a result of
/// `null`.
pub proof fn lemma_failure_json_shape(error: Seq<u8>)
    ensures
        ({
            let text = failure_json(error);
            let head = encode_utf8(failure_head());
            let tail = encode_utf8(failure_tail());
            &&& head.len() + tail.len() <= text.len()
            &&& text.subrange(0, head.len() as int) == head
            &&& text.subrange(text.len() - tail.len(), text.len() as int) == tail
        }),
{
    let text = failure_json(error);
    let head = encode_utf8(failure_head());
    let tail = encode_utf8(failure_tail());
    assert(text.subrange(0, head.len() as int) =~= head);
    assert(text.subrange(text.len() - tail.len(), text.len() as int) =~= tail);
}

/// A failure envelope mentions every part of its error text: where the
/// text holds `part` between `before` and `after`, the envelope holds what
/// is written for `part`.
pub proof fn lemma_failure_json_mentions(before: Seq<u8>, part: Seq<u8>, after: Seq<u8>)
    ensures
        occurs_in(escaped(part), failure_json(before + part + after)),
{
    let whole = failure_json(before + part + after);
    lemma_escaped_concat(before + part, after);
    lemma_escaped_concat(before, part);
    let start = (encode_utf8(failure_head()).len() + escaped(before).len()) as int;
    assert(whole.subrange(start, start + escaped(part).len()) =~= escaped(part));
}

proof fn lemma_ascii_bytes_are_text(bytes: Seq<u8>)
    requires
        forall|i: int| 0 <= i < bytes.len() ==> #[trigger] bytes[i] <= 0x7f,
    ensures
        valid_utf8(bytes),
{
    assert(bytes.subrange(0, 0) =~= Seq::<u8>::empty());
    assert forall|i: int| 0 <= 0 <= i < bytes.len() <= bytes.len() implies #[trigger] is_leading_byte_width_1(
        bytes[i],
    ) by {}
    partial_valid_utf8_extend_ascii_block(bytes, 0, bytes.len() as int);
    assert(bytes.subrange(0, bytes.len() as int) =~= bytes);
}

proof fn lemma_high_bytes_stand_for_themselves(bytes: Seq<u8>)
    requires
        forall|i: int| 0 <= i < bytes.len() ==> #[trigger] bytes[i] >= 0x80,
    ensures
        escaped(bytes) == bytes,
    decreases bytes.len(),
{
    if bytes.len() > 0 {
        lemma_high_bytes_stand_for_themselves(bytes.drop_first());
        assert(escaped_byte(bytes[0]) =~= seq![bytes[0]]);
        assert(seq![bytes[0]] + bytes.drop_first() =~= bytes);
    }
}

/// Escaping keeps text well-formed: what is written for well-formed UTF-8
/// is well-formed UTF-8.
pub proof fn lemma_escaped_keeps_utf8(text: Seq<u8>)
    requires
        valid_utf8(text),
    ensures
        valid_utf8(escaped(text)),
    decreases text.len(),
{
    if text.len() > 0 {
        let width = length_of_first_scalar(text);
        let first = take_first_scalar(text);
        let rest = pop_first_scalar(text);
        assert(first + rest =~= text);
        lemma_escaped_concat(first, rest);
        lemma_escaped_keeps_utf8(rest);
        if is_leading_byte_width_1(text[0]) {
            assert(first =~= seq![text[0]]);
            assert(escaped(first) =~= escaped_byte(text[0])) by {
                reveal_with_fuel(escaped, 2);
            }
            lemma_ascii_bytes_are_text(escaped_byte(text[0]));
        } else {
            lemma_high_bytes_stand_for_themselves(first);
            assert(valid_first_scalar(first));
            assert(pop_first_scalar(first) =~= Seq::<u8>::empty());
            assert(valid_utf8(first)) by {
                reveal_with_fuel(valid_utf8, 2);
            }
        }
        valid_utf8_concat(escaped(first), escaped(rest));
    }
}

/// A failure envelope is text: whatever the error says, the envelope is
/// well-formed UTF-8.
pub proof fn lemma_failure_json_is_text(error: Seq<char>)
    ensures
        valid_utf8(failure_json(encode_utf8(error))),
{
    encode_utf8_valid_utf8(failure_head());
    encode_utf8_valid_utf8(failure_tail());
    encode_utf8_valid_utf8(error);
    lemma_escaped_keeps_utf8(encode_utf8(error));
    valid_utf8_concat(encode_utf8(failure_head()), escaped(encode_utf8(error)));
    valid_utf8_concat(
        encode_utf8(failure_head()) + escaped(encode_utf8(error)),
        encode_utf8(failure_tail()),
    );
}

} // verus!
