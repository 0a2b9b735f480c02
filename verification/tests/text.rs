use code_sandbox::path::{join, PathStyle};
use code_sandbox::text::{get_first_line, parse_i32, parse_u32, to_decimal, trim};

#[test]
fn decimal_notation_agrees_with_display() {
    for n in 0..2000u128 {
        assert_eq!(to_decimal(n), format!("{}", n));
    }
    for n in [9_999_999_999u128, u64::MAX as u128, u128::MAX] {
        assert_eq!(to_decimal(n), format!("{}", n));
    }
}

#[test]
fn first_line_agrees_with_lines() {
    let cases = [
        "", "\n", "\r\n", "\r", "a", "a\n", "a\r\n", "a\r", "a\rb\nc", "a\n\r\nb", "\na", "\r\r\nx",
        "käse\nbrot",
    ];
    for text in cases {
        assert_eq!(get_first_line(text), text.lines().next());
    }
    assert_eq!(get_first_line("one\r\ntwo"), Some("one"));
    assert_eq!(get_first_line(""), None);
}

#[test]
fn trim_agrees_with_std_on_every_character() {
    for c in '\0'..=char::MAX {
        let s = format!("{}x{}y{}{}", c, c, c, c);
        assert_eq!(trim(&s), s.trim());
    }
    assert_eq!(trim(" \t abc \r\n"), "abc");
    assert_eq!(trim("   "), "");
    assert_eq!(trim(""), "");
}

#[test]
fn parse_agrees_with_std() {
    let cases = [
        "", "+", "-", "0", "-0", "+0", "17", "-17", "+17", "007", "--1", "+-1", "1-", "1 ", " 1",
        "2147483647", "2147483648", "-2147483648", "-2147483649", "4294967295", "+4294967295", "4294967296",
        "99999999999999999999999", "0x10",
        "1_000", "\u{0661}",
    ];
    for text in cases {
        assert_eq!(parse_i32(text), text.parse::<i32>().ok());
        assert_eq!(parse_u32(text), text.parse::<u32>().ok());
    }
    assert_eq!(parse_i32("-2147483648"), Some(i32::MIN));
    assert_eq!(parse_i32("2147483648"), None);
    assert_eq!(parse_u32("4294967295"), Some(u32::MAX));
    assert_eq!(parse_u32("4294967296"), None);
    assert_eq!(parse_u32("-0"), None);
}

#[test]
fn join_agrees_with_path() {
    for base in ["", "/", "/tmp", "/tmp/", "tmp", "a/b", "C:", "C:\\Temp", "C:\\"] {
        for name in ["", "x", "0.txt", "inputs"] {
            let expected = std::path::Path::new(base).join(name).display().to_string();
            assert_eq!(join(PathStyle::Unix, base, name), expected);
        }
    }
    assert_eq!(
        join(PathStyle::Unix, "/tmp/playground.x", "inputs"),
        "/tmp/playground.x/inputs"
    );
}

#[test]
fn join_with_backslashes() {
    let cases = [
        ("", "x"),
        ("C:", "C:x"),
        ("z:", "z:x"),
        ("1:", "1:\\x"),
        ("CC:", "CC:\\x"),
        ("C:\\", "C:\\x"),
        ("C:/", "C:/x"),
        ("C:\\Temp", "C:\\Temp\\x"),
        ("C:\\Temp\\", "C:\\Temp\\x"),
        ("\\\\server\\share", "\\\\server\\share\\x"),
        ("rel/dir", "rel/dir\\x"),
    ];
    for (base, expected) in cases {
        assert_eq!(join(PathStyle::Windows, base, "x"), expected);
    }
}
