use besim_gui::text::{decimal_string, is_space_char, parse_usize, trim_end_by, trim_space, trim_start_by, Strip};

#[test]
fn whitespace_matches_std_for_every_char() {
    for u in 0u32..=0x10FFFF {
        if let Some(c) = char::from_u32(u) {
            assert_eq!(is_space_char(c), c.is_whitespace(), "char {:#x}", u);
        }
    }
}

#[test]
fn trim_matches_std() {
    let samples = [
        "", " ", "  a  ", "\t\n x y \r\n", "\u{3000}wide\u{2028}", "no-space", "\u{85}x\u{a0}",
        " \u{200b} ",
    ];
    for s in samples {
        assert_eq!(trim_space(s), s.trim());
        assert_eq!(trim_start_by(s, Strip::Space), s.trim_start());
        assert_eq!(trim_end_by(s, Strip::Space), s.trim_end());
    }
}

#[test]
fn trim_matches_char_like_std() {
    let samples = ["", "/", "///a//b///", "a/", "/a", "é//"];
    for s in samples {
        assert_eq!(trim_start_by(s, Strip::Exactly('/')), s.trim_start_matches('/'));
        assert_eq!(trim_end_by(s, Strip::Exactly('/')), s.trim_end_matches('/'));
    }
}

#[test]
fn parse_usize_matches_std() {
    let samples = [
        "", "+", "-", "0", "7", "+3", "-3", "01", "12a", " 1", "1 ", "++1",
        "18446744073709551615", "18446744073709551616", "99999999999999999999999", "٣",
    ];
    for s in samples {
        assert_eq!(parse_usize(s), s.parse::<usize>().ok(), "{:?}", s);
    }
}

#[test]
fn decimal_matches_to_string() {
    for i in [0, 1, -1, 9, 10, -10, 123456, i32::MAX, i32::MIN] {
        assert_eq!(decimal_string(i), i.to_string());
    }
}
