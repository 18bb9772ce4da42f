use dialumi::error::TpError;
use dialumi::protocol::{decrypt, encipher_bytes, encrypt, read_be_u32, ResponseReader};

fn payload(text: &str) -> Vec<u8> {
    let framed = encrypt(text);
    framed[4..].to_vec()
}

#[test]
fn encrypt_writes_header_and_chained_stream() {
    // '{' ^ 0xAB = 0xD0, then '}' ^ 0xD0 = 0xAD
    assert_eq!(encrypt("{}"), vec![0, 0, 0, 2, 0xD0, 0xAD]);
}

#[test]
fn encrypt_empty_text_is_header_only() {
    assert_eq!(encrypt(""), vec![0, 0, 0, 0]);
}

#[test]
fn encrypt_header_holds_byte_length_not_char_count() {
    let framed = encrypt("é✓");
    assert_eq!(&framed[0..4], &[0, 0, 0, 5]);
    assert_eq!(framed.len(), 9);
}

#[test]
fn encipher_bytes_is_the_frame_without_header() {
    let text = "{\"system\":{\"get_sysinfo\":null}}";
    assert_eq!(encipher_bytes(text.as_bytes()), payload(text));
}

#[test]
fn decrypt_reverses_encrypt() {
    for text in ["", "a", "{\"system\":{\"get_sysinfo\":null}}", "héllo wörld ✓ 💡", "\u{0}\u{7f}"] {
        let mut body = payload(text);
        assert_eq!(decrypt(&mut body), text);
        assert_eq!(body, text.as_bytes());
    }
}

#[test]
fn decrypt_replaces_invalid_utf8() {
    // 0x54 ^ 0xAB = 0xFF, which is not UTF-8
    let mut body = vec![0x54];
    assert_eq!(decrypt(&mut body), "\u{FFFD}");
    assert_eq!(body, vec![0xFF]);
}

#[test]
fn read_be_u32_reads_most_significant_first() {
    assert_eq!(read_be_u32(&[0x01, 0x02, 0x03, 0x04, 0xFF]), 0x01020304);
    assert_eq!(read_be_u32(&[0xFF, 0xFF, 0xFF, 0xFF]), u32::MAX);
}

#[test]
fn reader_waits_for_declared_length_across_partial_reads() {
    let framed = encrypt("hello");
    assert_eq!(framed.len(), 9);
    let mut reader = ResponseReader::new();
    assert!(!reader.push(&framed[0..2]));
    assert_eq!(reader.declared_length(), None);
    assert!(!reader.push(&framed[2..4]));
    assert_eq!(reader.declared_length(), Some(5));
    assert!(!reader.push(&framed[4..7]));
    assert!(!reader.push(&framed[7..8]));
    assert!(reader.push(&framed[8..9]));
    assert_eq!(reader.finish().unwrap(), "hello");
}

#[test]
fn reader_completes_in_one_read() {
    let framed = encrypt("{\"a\":1}");
    let mut reader = ResponseReader::new();
    assert!(reader.push(&framed));
    assert_eq!(reader.finish().unwrap(), "{\"a\":1}");
}

#[test]
fn reader_completes_when_stream_ends() {
    let framed = encrypt("hello");
    let mut reader = ResponseReader::new();
    assert!(!reader.push(&framed[0..6]));
    assert!(reader.push(&[]));
    assert_eq!(reader.finish().unwrap(), "he");
}

#[test]
fn reader_with_short_reply_fails() {
    let mut reader = ResponseReader::new();
    assert!(!reader.push(&[0, 0, 0]));
    assert!(reader.push(&[]));
    assert!(matches!(reader.finish(), Err(TpError::Unknown(_))));
}

#[test]
fn reader_buffers_header_split_across_reads() {
    let mut reader = ResponseReader::new();
    assert!(!reader.push(&[0x00, 0x00]));
    assert_eq!(reader.declared_length(), None);
    assert!(!reader.push(&[0x00, 0x02, 0xD0]));
    assert_eq!(reader.declared_length(), Some(2));
    assert!(reader.push(&[0xAD]));
    assert_eq!(reader.finish().unwrap(), "{}");
}
