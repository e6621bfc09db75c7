use netflux::{registry_string_bytes, wide_string};

#[test]
fn wide_ascii_gets_nul() {
    assert_eq!(wide_string("ab"), vec![97, 98, 0]);
    assert_eq!(wide_string(""), vec![0]);
}

#[test]
fn wide_non_ascii() {
    assert_eq!(wide_string("\u{e9}"), vec![0xe9, 0]);
    assert_eq!(wide_string("\u{2193} x"), vec![0x2193, 0x20, 0x78, 0]);
    assert_eq!(wide_string("\u{1F600}"), vec![0xD83D, 0xDE00, 0]);
}

#[test]
fn registry_bytes_little_endian() {
    assert_eq!(registry_string_bytes("ab"), vec![97, 0, 98, 0, 0, 0]);
    assert_eq!(registry_string_bytes("\u{2193}"), vec![0x93, 0x21, 0, 0]);
}
