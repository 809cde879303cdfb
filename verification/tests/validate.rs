use finish_it::validate::is_filled;
use finish_it::validate::parse_uint;
use finish_it::validate::validate_text;
use finish_it::validate::AreaType;
use finish_it::validate::Confirm;

#[test]
fn percentage_field_accepts_0_to_100() {
    assert!(!validate_text(AreaType::Percentage, "101"));
    assert!(validate_text(AreaType::Percentage, "100"));
    assert!(!validate_text(AreaType::Percentage, "abc"));
    assert!(validate_text(AreaType::Percentage, "0"));
    assert!(validate_text(AreaType::Percentage, "57"));
    assert!(!validate_text(AreaType::Percentage, "-1"));
    assert!(!validate_text(AreaType::Percentage, "256"));
    assert!(!validate_text(AreaType::Percentage, "1000"));
    assert!(!validate_text(AreaType::Percentage, "12.5"));
}

#[test]
fn empty_text_is_accepted_by_no_kind() {
    for kind in [AreaType::UInt, AreaType::Percentage, AreaType::Confirm, AreaType::String] {
        assert!(!validate_text(kind, ""));
    }
}

#[test]
fn uint_field_accepts_digits_only() {
    assert!(validate_text(AreaType::UInt, "0"));
    assert!(validate_text(AreaType::UInt, "12345"));
    assert!(validate_text(AreaType::UInt, "101"));
    assert!(!validate_text(AreaType::UInt, "-3"));
    assert!(!validate_text(AreaType::UInt, "3a"));
    assert!(!validate_text(AreaType::UInt, " 3"));
    assert!(!validate_text(AreaType::UInt, "3 "));
    assert!(!validate_text(AreaType::UInt, "+"));
    assert!(!validate_text(AreaType::UInt, "++1"));
    assert!(!validate_text(AreaType::UInt, "1+"));
    assert!(!validate_text(AreaType::UInt, "\u{0663}"));
    assert!(!validate_text(AreaType::UInt, "1\u{00e9}"));
}

#[test]
fn parse_uint_gives_the_number() {
    assert_eq!(parse_uint("0", 100), Some(0));
    assert_eq!(parse_uint("7", 100), Some(7));
    assert_eq!(parse_uint("100", 100), Some(100));
    assert_eq!(parse_uint("101", 100), None);
    assert_eq!(parse_uint("+42", 100), Some(42));
    assert_eq!(parse_uint("007", 100), Some(7));
    assert_eq!(parse_uint("0000000000000000000000000000000000012", 100), Some(12));
    assert_eq!(parse_uint("", 100), None);
    assert_eq!(parse_uint("+", 100), None);
    assert_eq!(parse_uint("-0", 100), None);
    assert_eq!(parse_uint("1 ", 100), None);
    assert_eq!(parse_uint("9", 0), None);
    assert_eq!(parse_uint("0", 0), Some(0));
}

#[test]
fn parse_uint_stops_at_the_limit_of_the_machine() {
    let max = usize::MAX.to_string();
    assert_eq!(parse_uint(&max, usize::MAX), Some(usize::MAX));
    let above = format!("{}0", max);
    assert_eq!(parse_uint(&above, usize::MAX), None);
    let next = (usize::MAX as u128 + 1).to_string();
    assert_eq!(parse_uint(&next, usize::MAX), None);
    assert_eq!(parse_uint("99999999999999999999999999999999999999999", usize::MAX), None);
}

#[test]
fn parse_uint_agrees_with_the_standard_parser() {
    let samples = [
        "", "0", "1", "+1", "-1", "00", "42", "4 2", "١٢", "999", "+", "+-1", "1e3", "0x10", "18446744073709551615",
        "18446744073709551616", "4294967295", "4294967296", "  ", "7\n",
    ];
    for s in samples {
        assert_eq!(parse_uint(s, usize::MAX), s.parse::<usize>().ok(), "on {:?}", s);
        let as_u8 = s.parse::<u8>().ok().map(|v| v as usize);
        assert_eq!(parse_uint(s, u8::MAX as usize), as_u8, "on {:?}", s);
    }
}

#[test]
fn confirm_field_accepts_yes_and_no() {
    for s in ["y", "Y", "yes", "YES", "Yes", "yEs", "n", "N", "no", "NO", "No", "nO"] {
        assert!(validate_text(AreaType::Confirm, s), "on {:?}", s);
    }
    for s in ["", "ye", "yess", "nope", "0", "1", "true", " yes", "yes ", "y e s", "ja", "\u{212a}", "n\u{00f6}"] {
        assert!(!validate_text(AreaType::Confirm, s), "on {:?}", s);
    }
}

#[test]
fn confirm_parse_tells_the_answer() {
    assert_eq!(Confirm::parse("y"), Some(Confirm::Yes));
    assert_eq!(Confirm::parse("YeS"), Some(Confirm::Yes));
    assert_eq!(Confirm::parse("n"), Some(Confirm::No));
    assert_eq!(Confirm::parse("No"), Some(Confirm::No));
    assert_eq!(Confirm::parse("on"), None);
    assert_eq!(Confirm::parse("ny"), None);
    assert_eq!(Confirm::parse("yno"), None);
    assert_eq!(Confirm::parse("9"), None);
    assert_eq!(Confirm::parse("Y\u{45}S"), Some(Confirm::Yes));
    assert_eq!(Confirm::parse("9es"), None);
    assert_eq!(Confirm::parse("Yes!"), None);
}

#[test]
fn confirm_flag_is_one_for_yes() {
    assert_eq!(Confirm::get_confirm_u8_str("yes"), "1");
    assert_eq!(Confirm::get_confirm_u8_str("Y"), "1");
    assert_eq!(Confirm::get_confirm_u8_str("no"), "0");
    assert_eq!(Confirm::get_confirm_u8_str("N"), "0");
    assert_eq!(Confirm::get_confirm_u8_str("maybe"), "0");
    assert_eq!(Confirm::get_confirm_u8_str(""), "0");
}

#[test]
fn confirm_word_is_yes_for_one() {
    assert_eq!(Confirm::get_confirm_str("1"), "Yes");
    assert_eq!(Confirm::get_confirm_str("0"), "No");
    assert_eq!(Confirm::get_confirm_str(""), "No");
    assert_eq!(Confirm::get_confirm_str("11"), "No");
    assert_eq!(Confirm::get_confirm_str("2"), "No");
}

#[test]
fn free_text_must_hold_more_than_whitespace() {
    assert!(validate_text(AreaType::String, "a"));
    assert!(validate_text(AreaType::String, "  a  "));
    assert!(validate_text(AreaType::String, "0"));
    assert!(validate_text(AreaType::String, "\u{00e9}"));
    assert!(!validate_text(AreaType::String, ""));
    assert!(!validate_text(AreaType::String, " "));
    assert!(!validate_text(AreaType::String, " \t \n"));
    assert!(!validate_text(AreaType::String, "\u{3000}\u{2003}"));
}

#[test]
fn is_filled_agrees_with_trim() {
    for s in ["", " ", "x", " x", "x ", "\t", "\u{00a0}", "\u{200b}", "a b", "\u{1680}z"] {
        assert_eq!(is_filled(s), !s.trim().is_empty(), "on {:?}", s);
    }
}

#[test]
fn whitespace_is_the_white_space_property() {
    let stated = |c: char| {
        matches!(
            c,
            '\u{0009}'..='\u{000D}'
                | '\u{0020}'
                | '\u{0085}'
                | '\u{00A0}'
                | '\u{1680}'
                | '\u{2000}'..='\u{200A}'
                | '\u{2028}'
                | '\u{2029}'
                | '\u{202F}'
                | '\u{205F}'
                | '\u{3000}'
        )
    };
    let mut count = 0;
    for code in 0..=0x10FFFFu32 {
        if let Some(c) = char::from_u32(code) {
            assert_eq!(c.is_whitespace(), stated(c), "on U+{:04X}", code);
            if stated(c) {
                count += 1;
                let text = c.to_string();
                assert!(!is_filled(&text));
                assert!(!validate_text(AreaType::String, &text));
                assert_eq!(is_filled(&format!("{}x{}", c, c)), true);
            }
        }
    }
    assert_eq!(count, 25);
    for c in ['\u{200B}', '\u{180E}', '\u{FEFF}', '\u{0008}', '\u{001C}', 'a'] {
        assert!(is_filled(&c.to_string()), "on {:?}", c);
    }
}

#[test]
fn accepted_numbers_and_answers_need_no_trimming() {
    for s in ["0", "+7", "100", "yes", "N", "no", "Y"] {
        assert_eq!(s.trim(), s);
    }
    for s in [" 1", "1 ", "\t5", "yes\n", " no"] {
        assert!(!validate_text(AreaType::UInt, s));
        assert!(!validate_text(AreaType::Percentage, s));
        assert!(!validate_text(AreaType::Confirm, s));
    }
}
