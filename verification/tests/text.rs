use holochain_runtime::text::{decimal_text, joined, trim};

#[test]
fn numbers_are_written_in_decimal() {
    assert_eq!(decimal_text(0), "0");
    assert_eq!(decimal_text(9), "9");
    assert_eq!(decimal_text(10), "10");
    assert_eq!(decimal_text(65535), "65535");
    assert_eq!(decimal_text(u64::MAX), "18446744073709551615");
}

#[test]
fn texts_are_joined_in_order() {
    assert_eq!(joined("localhost:", "80"), "localhost:80");
    assert_eq!(joined("", ""), "");
}

#[test]
fn trimming_takes_white_space_off_both_ends() {
    assert_eq!(trim("  a b\t\r\n"), "a b");
    assert_eq!(trim("\u{2003}key\u{3000}"), "key");
    assert_eq!(trim("key"), "key");
    assert_eq!(trim(" \n"), "");
    assert_eq!(trim(""), "");
}

#[test]
fn trimming_agrees_with_the_standard_library() {
    for n in 0..0x11_0000u32 {
        if let Some(c) = char::from_u32(n) {
            if c.is_whitespace() || n < 0x100 || (0x1fff..0x2070).contains(&n) {
                let text = format!("{c}x{c}y{c}");
                assert_eq!(trim(&text), text.trim());
            }
        }
    }
}
