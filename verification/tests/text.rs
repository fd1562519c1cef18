use collector::text::in_class;
use collector::text::same_text;
use collector::text::Strip;
use collector::text::bool_text;
use collector::text::chars_of;
use collector::text::i64_text;
use collector::text::parse_u64;
use collector::text::strip_layout;
use collector::text::u64_text;

#[test]
fn layout_characters_are_dropped() {
    assert_eq!(strip_layout("\n\ta\tb \nc\r\n"), "ab c\r");
    assert_eq!(strip_layout(""), "");
}

#[test]
fn strip_layout_agrees_with_replace() {
    for s in ["plain", "\n\n", "a\nb\tc", "탭\t과 줄\n바꿈", " \t "] {
        assert_eq!(strip_layout(s), s.replace("\n", "").replace("\t", ""));
    }
}

#[test]
fn chars_are_kept_in_order() {
    assert_eq!(chars_of("aé한"), vec!['a', 'é', '한']);
}

#[test]
fn unsigned_numbers_render_as_std_does() {
    for n in [0u64, 7, 10, 99, 100, 12345, u64::MAX] {
        assert_eq!(u64_text(n), n.to_string());
    }
    assert_eq!(u64_text(18446744073709551615), "18446744073709551615");
}

#[test]
fn signed_numbers_render_as_std_does() {
    for n in [0i64, -1, 1, -10, 42, i64::MIN, i64::MAX] {
        assert_eq!(i64_text(n), n.to_string());
    }
    assert_eq!(i64_text(-9223372036854775808), "-9223372036854775808");
}

#[test]
fn booleans_render_as_std_does() {
    assert_eq!(bool_text(true), true.to_string());
    assert_eq!(bool_text(false), false.to_string());
}

#[test]
fn numbers_parse_as_std_does() {
    let inputs = [
        "0", "7", "007", "+5", "+", "", "-1", "-0", " 1", "1 ", "1_0", "12a", "a12",
        "18446744073709551615", "18446744073709551616", "99999999999999999999999", "++1", "１２",
        "+0018446744073709551615",
    ];
    for s in inputs {
        assert_eq!(parse_u64(s), s.parse::<u64>().ok(), "input {:?}", s);
    }
    assert_eq!(parse_u64("12345"), Some(12345));
}

#[test]
fn white_space_is_what_std_calls_white_space() {
    for u in 0..=0x10FFFFu32 {
        if let Some(c) = char::from_u32(u) {
            assert_eq!(collector::text::is_space_char(c), c.is_whitespace(), "char {:x}", u);
        }
    }
}

#[test]
fn classes_tell_spaces_from_quotes() {
    assert!(in_class(Strip::Space, ' '));
    assert!(!in_class(Strip::Space, '"'));
    assert!(in_class(Strip::Quote, '"'));
    assert!(!in_class(Strip::Quote, '\''));
}

#[test]
fn same_text_compares_characters() {
    assert!(same_text("", ""));
    assert!(same_text("héllo", "héllo"));
    assert!(!same_text("hello", "hellO"));
    assert!(!same_text("hello", "hell"));
    assert!(!same_text("", "x"));
}

#[test]
fn decimal_is_appended() {
    let mut s = String::from("n=");
    collector::text::push_decimal(&mut s, 1203);
    assert_eq!(s, "n=1203");
}
