use msgpass::{bytes_to_string, bytes_to_string_lossy, str_to_bytes, to_i32, trim_end_nul};

#[test]
fn usize_to_i32_works() {
    let m = 2_usize;
    let x = vec![0.0; m];
    let m_i32 = to_i32(x.len());
    assert_eq!(m_i32, 2_i32);
}

#[test]
fn str_to_bytes_works() {
    let mut buf10 = vec![0u8; 10];
    let mut buf13 = vec![0u8; 13];
    let mut buf20 = vec![0u8; 20];

    str_to_bytes(&mut buf10, "123456789abcd");
    str_to_bytes(&mut buf13, "123456789abcd");
    str_to_bytes(&mut buf20, "123456789abcd");

    let msg = String::from_utf8(buf10).unwrap();
    assert_eq!(msg.len(), 10);
    assert_eq!(msg, "123456789a");

    let msg = String::from_utf8(buf13).unwrap();
    assert_eq!(msg.len(), 13);
    assert_eq!(msg, "123456789abcd");

    let msg = String::from_utf8(buf20).unwrap();
    assert_eq!(msg.len(), 20);
    assert_eq!(msg.trim_end_matches('\0'), "123456789abcd");
}

#[test]
fn str_to_bytes_works_emoji() {
    let mut buf10 = vec![0u8; 10];
    let mut buf20 = vec![0u8; 20];

    str_to_bytes(&mut buf10, "123456789abcd 😊");
    str_to_bytes(&mut buf20, "123456789abcd 😊");

    let msg = String::from_utf8(buf10).unwrap();
    assert_eq!(msg.len(), 10);
    assert_eq!(msg, "123456789a");

    let msg = String::from_utf8(buf20).unwrap();
    assert_eq!(msg.len(), 20);
    assert_eq!(msg.trim_end_matches('\0'), "123456789abcd 😊");
}

#[test]
fn bytes_to_string_works() {
    const EXTRA: u8 = 0;

    let sparkle_heart = vec![240, 159, 146, 150];
    let sparkle_heart = bytes_to_string(sparkle_heart).unwrap();
    assert_eq!("💖", sparkle_heart);

    let sparkle_heart = vec![240, 159, 146, 150, EXTRA, EXTRA, EXTRA, EXTRA];
    let sparkle_heart = bytes_to_string(sparkle_heart).unwrap();
    assert_eq!("💖", sparkle_heart);

    let sparkle_heart_wrong = vec![0, 159, 146, 150];
    assert_eq!(bytes_to_string(sparkle_heart_wrong), Err("cannot convert bytes to UTF-8 string"));
}

#[test]
fn bytes_to_string_lossy_works() {
    const EXTRA: u8 = 0;

    let sparkle_heart = &[240, 159, 146, 150];
    let sparkle_heart = bytes_to_string_lossy(sparkle_heart);
    assert_eq!("💖", sparkle_heart);

    let sparkle_heart = &[240, 159, 146, 150, EXTRA, EXTRA, EXTRA, EXTRA];
    let sparkle_heart = bytes_to_string_lossy(sparkle_heart);
    assert_eq!("💖", sparkle_heart);

    let wrong = b"Hello \xF0\x90\x80World";
    let output = bytes_to_string_lossy(wrong);
    assert_eq!("Hello �World", output);
}

#[test]
fn to_i32_keeps_the_largest_native_value() {
    assert_eq!(to_i32(0), 0);
    assert_eq!(to_i32(2147483647), i32::MAX);
}

#[test]
fn str_to_bytes_leaves_the_tail_of_a_longer_buffer() {
    let mut buf = vec![7u8; 6];
    str_to_bytes(&mut buf, "ab");
    assert_eq!(buf, vec![b'a', b'b', 7, 7, 7, 7]);
}

#[test]
fn str_to_bytes_of_empty_text_changes_nothing() {
    let mut buf = vec![9u8; 3];
    str_to_bytes(&mut buf, "");
    assert_eq!(buf, vec![9, 9, 9]);
    let mut empty: Vec<u8> = Vec::new();
    str_to_bytes(&mut empty, "abc");
    assert!(empty.is_empty());
}

#[test]
fn str_to_bytes_may_cut_inside_a_character() {
    let mut buf = vec![0u8; 2];
    str_to_bytes(&mut buf, "é");
    assert_eq!(buf, vec![0xC3, 0xA9]);
    let mut short = vec![0u8; 1];
    str_to_bytes(&mut short, "é");
    assert_eq!(short, vec![0xC3]);
}

#[test]
fn trim_end_nul_drops_only_trailing_nuls() {
    assert_eq!(trim_end_nul("a\0b\0\0"), "a\0b");
    assert_eq!(trim_end_nul("\0\0"), "");
    assert_eq!(trim_end_nul(""), "");
    assert_eq!(trim_end_nul("xyz"), "xyz");
}

#[test]
fn bytes_to_string_decodes_multibyte_text() {
    assert_eq!(bytes_to_string(vec![0xC3, 0xA9, 0x41]), Ok(String::from("éA")));
    assert_eq!(bytes_to_string(vec![]), Ok(String::new()));
    assert_eq!(bytes_to_string(vec![0, 0]), Ok(String::new()));
}

#[test]
fn bytes_to_string_rejects_a_cut_character() {
    assert_eq!(bytes_to_string(vec![0x41, 0xC3]), Err("cannot convert bytes to UTF-8 string"));
    assert_eq!(bytes_to_string(vec![0xFF, 0]), Err("cannot convert bytes to UTF-8 string"));
}

#[test]
fn bytes_to_string_lossy_replaces_and_trims() {
    assert_eq!(bytes_to_string_lossy(&[0x41, 0xFF, 0, 0]), "A\u{FFFD}");
    assert_eq!(bytes_to_string_lossy(&[0x41, 0x42]), "AB");
    assert_eq!(bytes_to_string_lossy(&[]), "");
}
