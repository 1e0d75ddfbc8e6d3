use block_inspector::hex::parse_selector;
use block_inspector::hex::selector_hex_string;
use block_inspector::hex::selector_key_of;

/// The rendered selector is the first four bytes, two lowercase hex digits
/// each, high nibble first.
#[test]
fn rendering_is_first_four_bytes() {
    assert_eq!(
        selector_hex_string(&vec![0xa9, 0x05, 0x9c, 0xbb]),
        "a9059cbb".to_string()
    );
    assert_eq!(
        selector_hex_string(&vec![0x00, 0x01, 0xff, 0x10, 0x99]),
        "0001ff10".to_string()
    );
    assert_eq!(
        selector_hex_string(&vec![0x00, 0x00, 0x00, 0x00]),
        "00000000".to_string()
    );
}

/// The selector key reads the first four bytes big-endian.
#[test]
fn key_reads_big_endian() {
    assert_eq!(selector_key_of(&vec![0xa9, 0x05, 0x9c, 0xbb]), 0xa905_9cbb);
    assert_eq!(selector_key_of(&vec![0x00, 0x00, 0x00, 0x01]), 1);
    assert_eq!(
        selector_key_of(&vec![0xff, 0xff, 0xff, 0xff, 0x00]),
        u32::MAX
    );
}

/// Exactly eight lowercase hex characters parse; anything else does not.
#[test]
fn parsing_accepts_lowercase_hex_only() {
    assert_eq!(parse_selector("a9059cbb"), Some(0xa905_9cbb));
    assert_eq!(parse_selector("00000000"), Some(0));
    assert_eq!(parse_selector("ffffffff"), Some(u32::MAX));
    assert_eq!(parse_selector("A9059CBB"), None);
    assert_eq!(parse_selector("a9059cb"), None);
    assert_eq!(parse_selector("a9059cbb0"), None);
    assert_eq!(parse_selector("a9059cbg"), None);
    assert_eq!(parse_selector(""), None);
    assert_eq!(parse_selector("0xa9059c"), None);
}

/// Rendering and parsing agree: the parsed rendering of a payload is the
/// payload's key.
#[test]
fn rendering_then_parsing_gives_the_key() {
    for payload in [
        vec![0xa9, 0x05, 0x9c, 0xbb],
        vec![0x00, 0x00, 0x00, 0x00],
        vec![0xff, 0xfe, 0x01, 0x10, 0x42],
    ] {
        let rendered = selector_hex_string(&payload);
        assert_eq!(
            parse_selector(&rendered),
            Some(selector_key_of(&payload))
        );
    }
}
