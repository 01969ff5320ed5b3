use haruna_bot::text::{
    chars_of, contains, ends_with, find, find_any, has_any, index_of_str, int_to_text, parse_i32, parse_i64,
    parse_usize, rfind_char, split, split_spaces, starts_with, strip_char_suffix_len,
    strip_suffix_len, trim_end_len, utf8_longer_than, utf8_width_of, IntErrorKind,
};

fn cs(s: &str) -> Vec<char> {
    s.chars().collect()
}

fn string_of(v: &[char]) -> String {
    v.iter().collect()
}

fn words(v: &[Vec<char>]) -> Vec<String> {
    v.iter().map(|w| w.iter().collect()).collect()
}

#[test]
fn chars_of_keeps_every_character() {
    assert_eq!(chars_of("大玩家+1"), cs("大玩家+1"));
    assert!(chars_of("").is_empty());
}

#[test]
fn prefix_suffix_and_search() {
    let s = cs("/机厅管理 添加");
    assert!(starts_with(&s, "/机厅管理"));
    assert!(!starts_with(&s, "机厅"));
    assert!(ends_with(&s, "添加"));
    assert!(!ends_with(&s, "管理"));
    assert!(contains(&s, "管理 添"));
    assert!(!contains(&s, "删除"));
    assert_eq!(find(&s, "理"), Some(4));
    assert_eq!(find(&s, "x"), None);
    assert_eq!(index_of_str(&cs("a]b]c"), "]"), Some(1));
    assert_eq!(rfind_char(&cs("a]b]c"), ']'), Some(3));
    assert_eq!(rfind_char(&cs("abc"), ']'), None);
    assert!(has_any(&cs("大玩家减2"), "+加-减"));
    assert!(!has_any(&cs("大玩家2"), "+加-减"));
    assert_eq!(find_any(&cs("ab加c+"), "+加"), Some(2));
    assert_eq!(find_any(&cs("abc"), "+加"), None);
}

#[test]
fn split_keeps_empty_pieces() {
    assert_eq!(words(&split(&cs("a  b"), ' ')), vec!["a", "", "b"]);
    assert_eq!(words(&split(&cs(""), ' ')), vec![""]);
    assert_eq!(words(&split_spaces("/help 机厅管理-添加")), vec!["/help", "机厅管理-添加"]);
}

#[test]
fn law_split_then_join_gives_text_back() {
    let text = "a b  c ";
    let joined = words(&split(&cs(text), ' ')).join(" ");
    assert_eq!(joined, text);
}

#[test]
fn integers_print_as_std_does() {
    assert_eq!(string_of(&int_to_text(0)), "0");
    assert_eq!(string_of(&int_to_text(-42)), "-42");
    assert_eq!(string_of(&int_to_text(i64::MIN)), i64::MIN.to_string());
    assert_eq!(string_of(&int_to_text(i64::MAX)), i64::MAX.to_string());
}

#[test]
fn integers_parse_as_std_does() {
    assert!(matches!(parse_i64(&cs("123")), Ok(123)));
    assert!(matches!(parse_i64(&cs("+7")), Ok(7)));
    assert!(matches!(parse_i64(&cs("-9223372036854775808")), Ok(i64::MIN)));
    assert!(matches!(parse_i32(&cs("-2147483648")), Ok(i32::MIN)));
    assert!(matches!(parse_usize(&cs("0")), Ok(0)));
    for s in ["", "+", "-", "1a", " 1", "9223372036854775808", "-9223372036854775809", "2147483648", "-1"] {
        let ours = match parse_i64(&cs(s)) {
            Ok(v) => Ok(v),
            Err(k) => Err(k.text()),
        };
        let std = s.parse::<i64>().map_err(|e| e.to_string());
        assert_eq!(ours, std, "i64 {s:?}");
        let ours32 = match parse_i32(&cs(s)) {
            Ok(v) => Ok(v),
            Err(k) => Err(k.text()),
        };
        let std32 = s.parse::<i32>().map_err(|e| e.to_string());
        assert_eq!(ours32, std32, "i32 {s:?}");
        let oursu = match parse_usize(&cs(s)) {
            Ok(v) => Ok(v),
            Err(k) => Err(k.text()),
        };
        let stdu = s.parse::<usize>().map_err(|e| e.to_string());
        assert_eq!(oursu, stdu, "usize {s:?}");
    }
}

#[test]
fn each_parse_error_kind() {
    assert!(matches!(parse_i64(&cs("")), Err(IntErrorKind::Empty)));
    assert!(matches!(parse_i64(&cs("1x")), Err(IntErrorKind::InvalidDigit)));
    assert!(matches!(parse_i32(&cs("3000000000")), Err(IntErrorKind::PosOverflow)));
    assert!(matches!(parse_i32(&cs("-3000000000")), Err(IntErrorKind::NegOverflow)));
    assert_eq!(IntErrorKind::Empty.text(), "cannot parse integer from empty string");
    assert_eq!(IntErrorKind::NegOverflow.text(), "number too small to fit in target type");
}

#[test]
fn law_printed_integer_parses_back() {
    for n in [0i64, 1, -1, 1234567, -98765, i64::MAX, i64::MIN] {
        let t = int_to_text(n);
        assert!(matches!(parse_i64(&t), Ok(v) if v == n));
    }
}

#[test]
fn trimming_from_the_end() {
    let s = cs("大玩家123");
    assert_eq!(trim_end_len(&s, s.len(), "0123456789"), 3);
    let t = cs("大玩家几人");
    assert_eq!(strip_suffix_len(&t, t.len(), "几人"), 3);
    assert_eq!(strip_suffix_len(&t, t.len(), "几个人"), 5);
    let u = cs("大玩家j");
    assert_eq!(strip_char_suffix_len(&u, u.len(), "j几"), 3);
    assert_eq!(strip_char_suffix_len(&u, 3, "j几"), 3);
}

#[test]
fn utf8_lengths() {
    assert_eq!(utf8_width_of('a'), 'a'.len_utf8());
    assert_eq!(utf8_width_of('é'), 'é'.len_utf8());
    assert_eq!(utf8_width_of('机'), '机'.len_utf8());
    assert_eq!(utf8_width_of('😀'), '😀'.len_utf8());
    let s = cs("机厅机厅机厅机厅机厅");
    assert_eq!("机厅机厅机厅机厅机厅".len(), 30);
    assert!(!utf8_longer_than(&s, 30));
    assert!(utf8_longer_than(&cs("机厅机厅机厅机厅机厅a"), 30));
}
