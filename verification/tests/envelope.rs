use rust_core::envelope::append_bytes;
use rust_core::envelope::append_escaped;
use rust_core::envelope::error_envelope;
use rust_core::envelope::JsonEnvelope;

fn written(text: &[u8]) -> Vec<u8> {
    let mut out = Vec::new();
    append_escaped(&mut out, text);
    out
}

#[test]
fn plain_text_is_written_as_it_is() {
    assert_eq!(written(b"plain text 123"), b"plain text 123");
    assert_eq!(written(b""), b"");
}

#[test]
fn quote_and_backslash_get_a_backslash() {
    assert_eq!(written(b"say \"hi\""), b"say \\\"hi\\\"");
    assert_eq!(written(b"C:\\tools"), b"C:\\\\tools");
}

#[test]
fn named_control_characters_are_written_by_name() {
    assert_eq!(written(b"a\nb\tc\rd"), b"a\\nb\\tc\\rd");
    assert_eq!(written(&[0x08, 0x0c]), b"\\b\\f");
}

#[test]
fn other_control_characters_are_written_in_hexadecimal() {
    assert_eq!(written(&[0x00]), b"\\u0000");
    assert_eq!(written(&[0x01, 0x1f, 0x0b]), b"\\u0001\\u001f\\u000b");
}

#[test]
fn bytes_beyond_ascii_stand_for_themselves() {
    assert_eq!(written("né€".as_bytes()), "né€".as_bytes());
    assert_eq!(written(&[0x7f]), &[0x7f]);
}

#[test]
fn escaped_text_is_appended_after_what_is_there() {
    let mut out = b"x=".to_vec();
    append_escaped(&mut out, b"\"");
    assert_eq!(out, b"x=\\\"");
    append_bytes(&mut out, b"\"");
    assert_eq!(out, b"x=\\\"\"");
}

#[test]
fn failure_envelope_has_the_error_shape() {
    let envelope = JsonEnvelope::Failure { error: "it broke".to_string() };
    assert!(envelope.is_failure());
    assert_eq!(
        envelope.to_json(),
        b"{\"status\":\"error\",\"error\":\"it broke\",\"result\":null}"
    );
}

#[test]
fn success_envelope_carries_its_result() {
    let envelope = JsonEnvelope::Success { result: "{\"midi_path\":\"out.mid\"}".to_string() };
    assert!(!envelope.is_failure());
    assert_eq!(
        envelope.to_json(),
        b"{\"status\":\"ok\",\"result\":{\"midi_path\":\"out.mid\"},\"error\":null}"
    );
    assert_eq!(
        envelope.to_owned_string().as_bytes(),
        b"{\"status\":\"ok\",\"result\":{\"midi_path\":\"out.mid\"},\"error\":null}"
    );
}

#[test]
fn error_envelope_escapes_its_message() {
    let owned = error_envelope("path \"a\\b\"\nnot found");
    assert_eq!(
        owned.as_bytes(),
        b"{\"status\":\"error\",\"error\":\"path \\\"a\\\\b\\\"\\nnot found\",\"result\":null}"
    );
}

#[test]
fn error_envelope_carries_a_message_with_a_terminator() {
    let owned = error_envelope("a\0b");
    assert_eq!(
        owned.as_bytes(),
        b"{\"status\":\"error\",\"error\":\"a\\u0000b\",\"result\":null}"
    );
}

#[test]
fn an_envelope_that_cannot_be_carried_gives_the_fallback() {
    let envelope = JsonEnvelope::Success { result: "\"a\0b\"".to_string() };
    assert_eq!(
        envelope.to_owned_string().as_bytes(),
        &b"{\"status\":\"error\",\"error\":\"Internal error: envelope could not be encoded.\",\"result\":null}"[..]
    );
}
