use ratatoist::text::{chars_of, is_blank, joined, render_int, render_uint, text_between, trim_text};

#[test]
fn render_int_pads_with_zeros() {
    assert_eq!(render_int(7, 2), "07");
    assert_eq!(render_int(2025, 4), "2025");
    assert_eq!(render_int(-5, 4), "-005");
    assert_eq!(render_int(0, 0), "0");
    assert_eq!(render_int(12345, 2), "12345");
    assert_eq!(render_int(i64::MIN, 0), "-9223372036854775808");
    assert_eq!(render_int(7, 2), format!("{:02}", 7));
    assert_eq!(render_int(-5, 4), format!("{:04}", -5));
}

#[test]
fn render_uint_writes_hex() {
    assert_eq!(render_uint(255, 16, 8), "000000ff");
    assert_eq!(render_uint(0, 16, 1), "0");
    assert_eq!(render_uint(u64::MAX, 16, 16), "ffffffffffffffff");
    assert_eq!(render_uint(u64::MAX, 10, 0), "18446744073709551615");
}

#[test]
fn trim_text_strips_white_space_like_std() {
    for s in ["", "  ", " a ", "\t\nx y\r\n", "\u{a0}z\u{3000}", "abc", "\u{2003}q"] {
        assert_eq!(trim_text(s), s.trim());
        assert_eq!(is_blank(s), s.trim().is_empty());
    }
}

#[test]
fn chars_and_slices_agree_with_std() {
    let v = chars_of("héllo wörld");
    assert_eq!(v.len(), 11);
    assert_eq!(text_between(&v, 1, 5), "éllo");
    assert_eq!(text_between(&v, 3, 3), "");
    assert_eq!(joined("ab", "cd"), "abcd");
}
