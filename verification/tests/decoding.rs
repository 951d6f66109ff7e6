use tar_extract::decode::decode_filename;
use tar_extract::paths::{file_name_of, join_under};

#[test]
fn valid_utf8_bytes_decode_exactly() {
    let name = "files/\u{65E5}\u{672C}\u{8A9E}.txt";
    assert_eq!(decode_filename(name.as_bytes()), name);
}

#[test]
fn ascii_bytes_decode_exactly() {
    assert_eq!(decode_filename(b"plain/name.txt"), "plain/name.txt");
}

#[test]
fn invalid_utf8_bytes_fall_back_to_latin1() {
    let raw: &[u8] = b"caf\xE9.txt";
    assert_eq!(decode_filename(raw), "caf\u{E9}.txt");
}

#[test]
fn decoding_never_fails_on_arbitrary_bytes() {
    let raw: Vec<u8> = (0u8..=255u8).collect();
    let decoded = decode_filename(&raw);
    assert_eq!(decoded.chars().count(), 256);
}

#[test]
fn join_inserts_one_separator() {
    assert_eq!(join_under("out", "a/b.txt"), "out/a/b.txt");
    assert_eq!(join_under("out/", "a/b.txt"), "out/a/b.txt");
    assert_eq!(join_under("", "a/b.txt"), "a/b.txt");
}

#[test]
fn file_name_is_last_component() {
    assert_eq!(file_name_of("a/b/c.txt").as_deref(), Some("c.txt"));
    assert_eq!(file_name_of("c.txt").as_deref(), Some("c.txt"));
    assert_eq!(file_name_of("data/").as_deref(), Some("data"));
    assert_eq!(file_name_of("a//b//").as_deref(), Some("b"));
    assert_eq!(file_name_of("///").as_deref(), None);
    assert_eq!(file_name_of("").as_deref(), None);
}
