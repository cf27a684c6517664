use cryogen::{read_header, Error};

#[test]
fn test_empty_prelude_recognized() {
    let yaml_block = b"---\n---\n";

    assert!(read_header(yaml_block).is_ok())
}

#[test]
fn test_empty_string() {
    assert!(read_header(b"").is_ok());
}

#[test]
fn test_incomplete_block() {
    assert!(read_header(b"---").is_ok());
}

#[test]
fn test_valid_block() {
    assert!(read_header(b"---\ntitle: ABC\n---\n")
        .map(|(res, _)| res.is_some())
        .unwrap_or(false));
}

#[test]
fn test_empty_buffer_has_no_block() {
    assert_eq!(read_header(b"").unwrap(), (None, 0));
}

#[test]
fn test_empty_block_consumes_both_dividers() {
    let (meta, offset) = read_header(b"---\n---\n").unwrap();
    assert!(meta.is_none());
    assert_eq!(offset, 8);
}

#[test]
fn test_block_with_metadata_and_body() {
    let buf = b"---\ntitle: ABC\n---\nBody";
    let (meta, offset) = read_header(buf).unwrap();
    let expected: serde_yaml::Value = serde_yaml::from_str("title: ABC").unwrap();
    assert_eq!(meta, Some(expected));
    assert_eq!(&buf[offset..], b"Body");
}

#[test]
fn test_unterminated_block_is_no_metadata() {
    assert_eq!(read_header(b"---\nBody without closing divider").unwrap(), (None, 0));
}

#[test]
fn test_plain_text_has_no_block() {
    assert_eq!(read_header(b"not-a-block").unwrap(), (None, 0));
}

#[test]
fn test_divider_without_newline_opens_no_block() {
    assert_eq!(read_header(b"----").unwrap(), (None, 0));
    assert_eq!(read_header(b"---x\n---\n").unwrap(), (None, 0));
}

#[test]
fn test_crlf_dividers() {
    let buf = b"---\r\ntitle: ABC\r\n---\r\nBody";
    let (meta, offset) = read_header(buf).unwrap();
    assert!(meta.is_some());
    assert_eq!(&buf[offset..], b"Body");
}

#[test]
fn test_divider_at_end_of_buffer_terminates() {
    let buf = b"---\ntitle: ABC\n---";
    let (meta, offset) = read_header(buf).unwrap();
    assert!(meta.is_some());
    assert_eq!(offset, buf.len());
}

#[test]
fn test_divider_mid_line_needs_newline_after() {
    // The first `---` candidate inside the block is not followed by a
    // newline, so the block closes only at the later proper divider.
    let buf = b"---\nkey: a---b\n---\nBody";
    let (meta, offset) = read_header(buf).unwrap();
    assert!(meta.is_some());
    assert_eq!(&buf[offset..], b"Body");
}

#[test]
fn test_malformed_yaml_in_block_is_a_decode_error() {
    let r = read_header(b"---\n{unclosed\n---\n");
    assert!(matches!(r, Err(Error::DecodeError(_))));
}

#[test]
fn test_scanning_twice_is_idempotent() {
    let cases: [&[u8]; 6] = [
        b"",
        b"---\n---\n",
        b"---\ntitle: ABC\n---\nBody",
        b"---\nno closing divider",
        b"not-a-block",
        b"---\r\na: 1\r\n---\r\nrest",
    ];
    for buf in cases {
        let first = read_header(buf).unwrap();
        let second = read_header(buf).unwrap();
        assert_eq!(first, second);
    }
}
