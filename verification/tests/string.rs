use windows_kernel_rs::string::wide_name;

#[test]
fn wide_name_is_the_name_in_utf16() {
    assert_eq!(wide_name("Example"), Some(vec![0x45, 0x78, 0x61, 0x6d, 0x70, 0x6c, 0x65]));
    assert_eq!(wide_name(""), Some(vec![]));
    assert_eq!(wide_name("\u{ffff}"), Some(vec![0xffff]));
    assert_eq!(wide_name("\u{d7ff}\u{e000}"), Some(vec![0xd7ff, 0xe000]));
}

#[test]
fn wide_name_pairs_the_characters_above_the_first_plane() {
    assert_eq!(wide_name("\u{10000}"), Some(vec![0xd800, 0xdc00]));
    assert_eq!(wide_name("\u{103ff}"), Some(vec![0xd800, 0xdfff]));
    assert_eq!(wide_name("\u{10400}"), Some(vec![0xd801, 0xdc00]));
    assert_eq!(wide_name("\u{1f600}"), Some(vec![0xd83d, 0xde00]));
    assert_eq!(wide_name("\u{10ffff}"), Some(vec![0xdbff, 0xdfff]));
}

#[test]
fn wide_name_refuses_the_character_zero() {
    assert_eq!(wide_name("\0"), None);
    assert_eq!(wide_name("a\0b"), None);
    assert_eq!(wide_name("ab\0"), None);
    assert_eq!(wide_name("\0ab"), None);
}
