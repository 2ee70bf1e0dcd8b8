use address_index::decode::decode;

fn chars(s: &str) -> Vec<char> {
    s.chars().collect()
}

#[test]
fn decode_ascii_bytes_map_to_ascii() {
    for b in 0u8..128 {
        let r = decode(&vec![b]);
        if (b as char).is_whitespace() {
            assert_eq!(r, chars(""));
        } else {
            assert_eq!(r, vec![b as char]);
        }
    }
}

#[test]
fn decode_high_byte_matches_table() {
    assert_eq!(decode(&vec![0x94]), vec!['\u{00F6}']);
    assert_eq!(decode(&vec![0x81]), vec!['\u{00FC}']);
    assert_eq!(decode(&vec![0xE1]), vec!['\u{00DF}']);
    // 0xFF maps to a no-break space, which trimming removes.
    assert_eq!(decode(&vec![0xFF]), chars(""));
}

#[test]
fn decode_invalid_utf8_falls_back_byte_by_byte() {
    assert_eq!(decode(&vec![0x94, 0x94]), chars("\u{00F6}\u{00F6}"));
    // An interior no-break space from the table survives trimming.
    assert_eq!(decode(&vec![b'a', 0xFF, b'b']), chars("a\u{00A0}b"));
}

#[test]
fn decode_valid_utf8_passes_through() {
    // Multi-byte UTF-8 must decode as UTF-8, not byte by byte.
    let bytes = "Stra\u{00DF}e".as_bytes().to_vec();
    assert_eq!(decode(&bytes), chars("Stra\u{00DF}e"));
}

#[test]
fn decode_trims_surrounding_whitespace() {
    assert_eq!(decode(&b"  Hauptstrasse  ".to_vec()), chars("Hauptstrasse"));
    assert_eq!(decode(&b"\t x \r\n".to_vec()), chars("x"));
}

#[test]
fn decode_is_total_on_arbitrary_bytes() {
    assert_eq!(decode(&Vec::new()), chars(""));
    // A junk sequence still decodes, through the fallback table.
    assert_eq!(decode(&vec![0xFE, 0xC0, 0x00]), vec!['\u{25A0}', '\u{2514}', '\u{0000}']);
    for b in 0u8..=255 {
        // Never panics, whatever the byte.
        let _ = decode(&vec![b, b, b]);
    }
}
