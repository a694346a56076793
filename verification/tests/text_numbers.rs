use grpmr::custom_types::{
    checked_time, get_time, is_disableable, BlacklistMode, FilterType, LockType, PinMode, Switch,
    TimeUnit, WarnMode,
};
use grpmr::numparse::{fmt_i64, fmt_u64, parse_i64, parse_u64, push_dec};
use grpmr::permissions::{parse_owner_id, parse_sudo_users};
use grpmr::text::{
    concat2, has_char, is_whitespace, join, split_once_whitespace,
    split_whitespace, str_eq, string_of, truncate_chars,
};

fn strings(v: &[&str]) -> Vec<String> {
    v.iter().map(|s| s.to_string()).collect()
}

#[test]
fn split_whitespace_matches_std() {
    let s = "  /ban  @alice\tspam\nnow ";
    let expected: Vec<String> = s.split_whitespace().map(String::from).collect();
    assert_eq!(split_whitespace(s), expected);
    assert_eq!(split_whitespace(""), Vec::<String>::new());
    assert_eq!(split_whitespace("\u{3000}a\u{2003}b"), strings(&["a", "b"]));
}

#[test]
fn split_once_whitespace_splits_at_first_space() {
    assert_eq!(
        split_once_whitespace("/warn 42 being rude"),
        ("/warn".to_string(), Some("42 being rude".to_string()))
    );
    assert_eq!(split_once_whitespace("/warn"), ("/warn".to_string(), None));
    assert_eq!(split_once_whitespace("/warn "), ("/warn".to_string(), Some(String::new())));
}

#[test]
fn small_text_helpers() {
    assert!(is_whitespace(' '));
    assert!(is_whitespace('\u{85}'));
    assert!(!is_whitespace('x'));
    assert!(str_eq("abc", "abc"));
    assert!(!str_eq("abc", "abd"));
    assert!(has_char("a@b", '@'));
    assert!(!has_char("ab", '@'));
    assert_eq!(join(&strings(&["a", "b", "c"]), ", "), "a, b, c");
    assert_eq!(join(&Vec::new(), ", "), "");
    assert_eq!(string_of("x"), "x");
    assert_eq!(concat2("ab", "cd"), "abcd");
}

#[test]
fn truncate_chars_cuts_at_character_limit() {
    let (t, over) = truncate_chars("hello", 3);
    assert_eq!(t, "hel");
    assert!(over);
    let (t, over) = truncate_chars("hello", 5);
    assert_eq!(t, "hello");
    assert!(!over);
    let (t, over) = truncate_chars("ééé€", 3);
    assert_eq!(t, "ééé");
    assert!(over);
    let (t, over) = truncate_chars("ééé", 4);
    assert_eq!(t, "ééé");
    assert!(!over);
}

#[test]
fn numbers_parse_like_std() {
    assert_eq!(parse_u64("42"), Some(42));
    assert_eq!(parse_u64("+7"), Some(7));
    assert_eq!(parse_u64("-7"), None);
    assert_eq!(parse_u64(""), None);
    assert_eq!(parse_u64("18446744073709551615"), Some(u64::MAX));
    assert_eq!(parse_u64("18446744073709551616"), None);
    assert_eq!(parse_i64("-9223372036854775808"), Some(i64::MIN));
    assert_eq!(parse_i64("9223372036854775808"), None);
    assert_eq!(parse_i64("12a"), None);
    assert_eq!(parse_i64("-"), None);
}

#[test]
fn numbers_format_like_display() {
    assert_eq!(fmt_u64(0), "0");
    assert_eq!(fmt_u64(1234567890), "1234567890");
    assert_eq!(fmt_i64(-1001234567890), "-1001234567890");
    assert_eq!(fmt_i64(i64::MIN), i64::MIN.to_string());
    let mut s = String::from("n=");
    push_dec(&mut s, 305);
    assert_eq!(s, "n=305");
}

#[test]
fn written_numbers_read_back() {
    for v in [0i64, 7, -7, 1234567, i64::MAX, i64::MIN] {
        assert_eq!(parse_i64(&fmt_i64(v)), Some(v));
    }
    for n in [0u64, 9, 10, u64::MAX] {
        assert_eq!(parse_u64(&fmt_u64(n)), Some(n));
    }
}

#[test]
fn owner_and_sudo_variables() {
    assert_eq!(parse_owner_id("12345"), 12345);
    assert_eq!(parse_owner_id("abc"), 0);
    assert_eq!(parse_sudo_users("1,2,x,-4"), vec![1, 2, 0, -4]);
    assert_eq!(parse_sudo_users(""), vec![0]);
}

#[test]
fn time_spans() {
    assert_eq!(TimeUnit::parse("10m"), Some(TimeUnit::Minutes(10)));
    assert_eq!(TimeUnit::parse("3d"), Some(TimeUnit::Days(3)));
    assert_eq!(TimeUnit::parse("5s"), Some(TimeUnit::Seconds(5)));
    assert_eq!(TimeUnit::parse("2h"), Some(TimeUnit::Hours(2)));
    assert_eq!(TimeUnit::parse("10x"), None);
    assert_eq!(TimeUnit::parse("m"), None);
    assert_eq!(TimeUnit::parse(""), None);
    assert_eq!(get_time(&TimeUnit::Hours(2)), 7200);
    assert_eq!(get_time(&TimeUnit::Days(1)), 86400);
    assert_eq!(get_time(&TimeUnit::Minutes(3)), 180);
    assert_eq!(checked_time(&TimeUnit::Days(u64::MAX)), None);
    assert_eq!(checked_time(&TimeUnit::Seconds(9)), Some(9));
    assert_eq!(TimeUnit::Minutes(10).text(), "10 minutes");
    assert_eq!(TimeUnit::Days(1).text(), "1 days");
}

#[test]
fn time_span_reads_back() {
    for n in [0u64, 1, 59, 1000] {
        assert_eq!(TimeUnit::parse(&format!("{}s", n)), Some(TimeUnit::Seconds(n)));
        assert_eq!(TimeUnit::parse(&format!("{}m", n)), Some(TimeUnit::Minutes(n)));
        assert_eq!(TimeUnit::parse(&format!("{}h", n)), Some(TimeUnit::Hours(n)));
        assert_eq!(TimeUnit::parse(&format!("{}d", n)), Some(TimeUnit::Days(n)));
    }
}

#[test]
fn option_words() {
    assert_eq!(WarnMode::parse("soft"), WarnMode::Soft);
    assert_eq!(WarnMode::parse("strong"), WarnMode::Hard);
    assert_eq!(WarnMode::parse("other"), WarnMode::Error);
    assert_eq!(BlacklistMode::parse("kick"), BlacklistMode::Kick);
    assert_eq!(BlacklistMode::parse("nope"), BlacklistMode::Error);
    assert_eq!(BlacklistMode::Delete.word(), "delete");
    assert_eq!(FilterType::parse("photo"), FilterType::Photos);
    assert_eq!(FilterType::parse("photos"), FilterType::Error);
    assert_eq!(LockType::parse("gif"), LockType::Other);
    assert_eq!(LockType::parse("url"), LockType::Web);
    assert_eq!(LockType::parse("all"), LockType::Text);
    assert_eq!(LockType::parse("emoji"), LockType::Error);
    assert_eq!(PinMode::parse("violent"), PinMode::Loud);
    assert_eq!(PinMode::parse("silent"), PinMode::Silent);
    assert_eq!(Switch::parse("yes"), Switch::On);
    assert_eq!(Switch::parse("no"), Switch::Off);
    assert_eq!(Switch::parse("maybe"), Switch::Error);
    assert!(is_disableable("ud"));
    assert!(!is_disableable("ban"));
}
