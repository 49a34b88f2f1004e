//! Text helpers shared by the boundary: terminator search, decimal
//! rendering, and the step from raw bytes to text.

use vstd::prelude::*;
use vstd::string::*;
use vstd::utf8::*;

verus! {

/// Finds the first zero byte of `bytes`.
///
/// The result is `None` exactly when no byte is zero; otherwise it is the
/// position of the first one.
pub fn find_terminator(bytes: &[u8]) -> (position: Option<usize>)
    ensures
        position is None <==> !bytes@.contains(0u8),
        position matches Some(p) ==> {
            &&& p < bytes@.len()
            &&& bytes@[p as int] == 0u8
            &&& forall|j: int| 0 <= j < p ==> bytes@[j] != 0u8
        },
{
    let mut i: usize = 0;
    while i < bytes.len()
        invariant
            i <= bytes@.len(),
            forall|j: int| 0 <= j < i ==> bytes@[j] != 0u8,
        decreases bytes@.len() - i,
    {
        if bytes[i] == 0u8 {
            return Some(i);
        }
        i += 1;
    }
    None
}

/// The character of one decimal digit.
pub open spec fn digit_char(digit: nat) -> char
    recommends
        digit < 10,
{
    if digit == 0 {
        '0'
    } else if digit == 1 {
        '1'
    } else if digit == 2 {
        '2'
    } else if digit == 3 {
        '3'
    } else if digit == 4 {
        '4'
    } else if digit == 5 {
        '5'
    } else if digit == 6 {
        '6'
    } else if digit == 7 {
        '7'
    } else if digit == 8 {
        '8'
    } else {
        '9'
    }
}

/// The decimal numeral of `n`: most significant digit first, no leading
/// zeros, and the single digit `0` for zero.
pub open spec fn decimal_text(n: nat) -> Seq<char>
    decreases n,
{
    if n < 10 {
        seq![digit_char(n)]
    } else {
        decimal_text(n / 10).push(digit_char(n % 10))
    }
}

/// The decimal numeral of a signed number: a minus sign before the numeral
/// of the magnitude where the number is negative.
pub open spec fn signed_decimal_text(n: int) -> Seq<char> {
    if n < 0 {
        seq!['-'] + decimal_text((-n) as nat)
    } else {
        decimal_text(n as nat)
    }
}

fn digit_str(digit: u64) -> (text: &'static str)
    requires
        digit < 10,
    ensures
        text@ == seq![digit_char(digit as nat)],
{
    proof {
        reveal_strlit("0");
        reveal_strlit("1");
        reveal_strlit("2");
        reveal_strlit("3");
        reveal_strlit("4");
        reveal_strlit("5");
        reveal_strlit("6");
        reveal_strlit("7");
        reveal_strlit("8");
        reveal_strlit("9");
    }
    let text = if digit == 0 {
        "0"
    } else if digit == 1 {
        "1"
    } else if digit == 2 {
        "2"
    } else if digit == 3 {
        "3"
    } else if digit == 4 {
        "4"
    } else if digit == 5 {
        "5"
    } else if digit == 6 {
        "6"
    } else if digit == 7 {
        "7"
    } else if digit == 8 {
        "8"
    } else {
        "9"
    };
    assert(text@ =~= seq![digit_char(digit as nat)]);
    text
}

/// Appends the decimal numeral of `n` to `out`.
pub fn append_decimal(out: &mut String, n: u64)
    ensures
        final(out)@ == old(out)@ + decimal_text(n as nat),
    decreases n,
{
    if n >= 10 {
        append_decimal(out, n / 10);
    }
    out.append(digit_str(n % 10));
    assert(out@ =~= old(out)@ + decimal_text(n as nat));
}

/// Appends the decimal numeral of a signed number to `out`.
pub fn append_signed_decimal(out: &mut String, n: i64)
    ensures
        final(out)@ == old(out)@ + signed_decimal_text(n as int),
{
    if n < 0 {
        proof {
            reveal_strlit("-");
        }
        out.append("-");
        let magnitude: u64 = if n == i64::MIN {
            9223372036854775808u64
        } else {
            (-n) as u64
        };
        append_decimal(out, magnitude);
        assert(out@ =~= old(out)@ + signed_decimal_text(n as int));
    } else {
        append_decimal(out, n as u64);
    }
}

/// Puts `middle` between `prefix` and `suffix`.
pub fn framed(prefix: &str, middle: &str, suffix: &str) -> (text: String)
    ensures
        text@ == prefix@ + middle@ + suffix@,
{
    let mut text = prefix.to_owned();
    text.append(middle);
    text.append(suffix);
    text
}

/// For text of ASCII characters without the terminator character, the
/// transport bytes are the characters one for one, and none of them is zero.
pub proof fn lemma_plain_text_bytes(text: Seq<char>)
    requires
        is_ascii_chars(text),
        !text.contains('\0'),
    ensures
        encode_utf8(text).len() == text.len(),
        forall|i: int| 0 <= i < text.len() ==> #[trigger] encode_utf8(text)[i] == text[i] as u8,
        !encode_utf8(text).contains(0u8),
{
    is_ascii_chars_encode_utf8(text);
    let bytes = encode_utf8(text);
    assert forall|i: int| 0 <= i < bytes.len() implies bytes[i] != 0u8 by {
        assert(text.contains(text[i]));
        assert(bytes[i] == text[i] as u8);
    }
}

proof fn lemma_scalar_bytes_nonzero(scalar: u32)
    requires
        is_scalar(scalar),
        scalar != 0,
    ensures
        !encode_scalar(scalar).contains(0u8),
{
    assert(has_width_1_encoding(scalar) ==> leading_byte_width_1(scalar) != 0u8) by (bit_vector)
        requires
            scalar != 0,
    ;
    assert(leading_byte_width_2(scalar) != 0u8 && leading_byte_width_3(scalar) != 0u8
        && leading_byte_width_4(scalar) != 0u8 && last_continuation_byte(scalar) != 0u8
        && second_last_continuation_byte(scalar) != 0u8 && third_last_continuation_byte(scalar)
        != 0u8) by (bit_vector);
    let bytes = encode_scalar(scalar);
    assert forall|i: int| 0 <= i < bytes.len() implies bytes[i] != 0u8 by {}
}

/// The transport bytes of a text hold a zero byte exactly where the text
/// holds the terminator character.
pub proof fn lemma_terminator_in_bytes(text: Seq<char>)
    ensures
        encode_utf8(text).contains(0u8) <==> text.contains('\0'),
    decreases text.len(),
{
    if text.len() > 0 {
        let first = text[0];
        let rest = text.drop_first();
        let head = encode_scalar(first as u32);
        let tail = encode_utf8(rest);
        let bytes = encode_utf8(text);
        lemma_terminator_in_bytes(rest);
        char_is_scalar(first);
        if first == '\0' {
            assert(head[0] == 0u8) by {
                assert(leading_byte_width_1(0u32) == 0u8) by (bit_vector);
            }
            assert(bytes[0] == 0u8);
            assert(text[0] == '\0');
        } else {
            assert(first as u32 != 0) by {
                if first as u32 == 0 {
                    char_u32_cast(first, 0u32);
                    char_u32_cast('\0', 0u32);
                }
            }
            lemma_scalar_bytes_nonzero(first as u32);
            if rest.contains('\0') {
                let k = choose|k: int| 0 <= k < rest.len() && rest[k] == '\0';
                assert(text[k + 1] == '\0');
                let j = choose|j: int| 0 <= j < tail.len() && tail[j] == 0u8;
                assert(bytes[head.len() + j] == 0u8);
            }
            if bytes.contains(0u8) {
                let i = choose|i: int| 0 <= i < bytes.len() && bytes[i] == 0u8;
                if i < head.len() {
                    assert(head[i] == 0u8);
                    assert(head.contains(0u8));
                } else {
                    assert(tail[i - head.len()] == 0u8);
                    assert(tail.contains(0u8));
                    let k = choose|k: int| 0 <= k < rest.len() && rest[k] == '\0';
                    assert(text[k + 1] == '\0');
                }
            }
            if text.contains('\0') {
                let k = choose|k: int| 0 <= k < text.len() && text[k] == '\0';
                assert(rest[k - 1] == '\0');
            }
        }
    }
}

/// The transport bytes of two texts in a row are those of the first,
/// followed by those of the second.
pub proof fn lemma_text_bytes_concat(first: Seq<char>, second: Seq<char>)
    ensures
        encode_utf8(first + second) == encode_utf8(first) + encode_utf8(second),
    decreases first.len(),
{
    if first.len() == 0 {
        assert(first + second =~= second);
        assert(encode_utf8(first) + encode_utf8(second) =~= encode_utf8(second));
    } else {
        assert((first + second).drop_first() =~= first.drop_first() + second);
        lemma_text_bytes_concat(first.drop_first(), second);
        assert(encode_utf8(first + second) =~= encode_utf8(first) + encode_utf8(second));
    }
}

/// Reads bytes as text.
///
/// This is `core::str::from_utf8` with its error dropped: the bytes are
/// text exactly when they are well-formed UTF-8, and the text then has
/// those very bytes.
#[verifier::external_body]
pub(crate) fn utf8_text(bytes: &[u8]) -> (text: Option<&str>)
    ensures
        text is Some <==> valid_utf8(bytes@),
        text matches Some(t) ==> t.spec_bytes() == bytes@,
{
    core::str::from_utf8(bytes).ok()
}

} // verus!
