use storage_manager::dates::{check_iso_date, days_in_month, is_leap_year, validate_iso_date, DateError};
use storage_manager::text::{
    is_text_less, join2, parse_i64_chars, trim_string, utf8_len_of,
};

#[test]
fn leap_years_follow_the_gregorian_rule() {
    assert!(is_leap_year(2024));
    assert!(is_leap_year(2000));
    assert!(is_leap_year(1600));
    assert!(!is_leap_year(1900));
    assert!(!is_leap_year(2023));
    assert!(!is_leap_year(2100));
}

#[test]
fn month_lengths() {
    assert_eq!(days_in_month(2023, 1), Some(31));
    assert_eq!(days_in_month(2023, 4), Some(30));
    assert_eq!(days_in_month(2023, 2), Some(28));
    assert_eq!(days_in_month(2024, 2), Some(29));
    assert_eq!(days_in_month(1900, 2), Some(28));
    assert_eq!(days_in_month(2000, 2), Some(29));
    assert_eq!(days_in_month(2023, 12), Some(31));
    assert_eq!(days_in_month(2023, 0), None);
    assert_eq!(days_in_month(2023, 13), None);
}

#[test]
fn leap_years_repeat_every_four_hundred_years() {
    for year in [1_i32, 4, 100, 400, 1900, 2000, 2023, 2024] {
        assert_eq!(is_leap_year(year), is_leap_year(year + 400));
        for month in 0..14_u32 {
            assert_eq!(days_in_month(year, month), days_in_month(year + 400, month));
        }
    }
}

#[test]
fn accepted_dates_are_trimmed() {
    assert_eq!(
        validate_iso_date("  2024-02-29 ", "Start date"),
        Ok("2024-02-29".to_string())
    );
    assert_eq!(validate_iso_date("0001-01-01", "Start date"), Ok("0001-01-01".to_string()));
    assert_eq!(validate_iso_date("9999-12-31", "Start date"), Ok("9999-12-31".to_string()));
}

#[test]
fn refused_dates_say_why() {
    assert_eq!(
        validate_iso_date("2024/02/29", "Start date"),
        Err("Start date must use YYYY-MM-DD.".to_string())
    );
    assert_eq!(
        validate_iso_date("24-2-29", "Payment date"),
        Err("Payment date must use YYYY-MM-DD.".to_string())
    );
    assert_eq!(
        validate_iso_date("", "Payment date"),
        Err("Payment date must use YYYY-MM-DD.".to_string())
    );
    assert_eq!(
        validate_iso_date("2024-0a-01", "Start date"),
        Err("Start date must use YYYY-MM-DD.".to_string())
    );
    assert_eq!(
        validate_iso_date("0000-01-01", "Start date"),
        Err("Start date contains an invalid year.".to_string())
    );
    assert_eq!(
        validate_iso_date("2024-13-01", "End date"),
        Err("End date contains an invalid month.".to_string())
    );
    assert_eq!(
        validate_iso_date("2024-00-10", "End date"),
        Err("End date contains an invalid month.".to_string())
    );
    assert_eq!(
        validate_iso_date("2023-02-29", "End date"),
        Err("End date contains an invalid day.".to_string())
    );
    assert_eq!(
        validate_iso_date("2023-04-00", "End date"),
        Err("End date contains an invalid day.".to_string())
    );
    assert_eq!(
        validate_iso_date("2023-04-31", "End date"),
        Err("End date contains an invalid day.".to_string())
    );
}

#[test]
fn check_iso_date_gives_the_error_kind() {
    assert_eq!(check_iso_date(" 2024-01-15"), Ok("2024-01-15".chars().collect::<Vec<char>>()));
    assert_eq!(check_iso_date("2024-1-15"), Err(DateError::Shape));
    assert_eq!(check_iso_date("0000-01-15"), Err(DateError::Year));
    assert_eq!(check_iso_date("2024-20-15"), Err(DateError::Month));
    assert_eq!(check_iso_date("2024-06-31"), Err(DateError::Day));
}

#[test]
fn accepted_dates_are_accepted_again_unchanged() {
    for text in ["2024-02-29", " 1999-12-31\t", "\u{2003}2000-01-01"] {
        let once = validate_iso_date(text, "Date").expect("accepted");
        assert_eq!(validate_iso_date(&once, "Date"), Ok(once.clone()));
    }
}

#[test]
fn trimming_follows_unicode_white_space() {
    assert_eq!(trim_string("  hello \n"), "hello");
    assert_eq!(trim_string("\u{00a0}\u{2028}x y\u{3000}"), "x y");
    assert_eq!(trim_string("\u{200b}x"), "\u{200b}x");
    assert_eq!(trim_string(""), "");
    let once = trim_string(" \t a b \r\n");
    assert_eq!(trim_string(&once), once);
}

#[test]
fn whole_numbers_read_as_i64_reads_them() {
    let read = |s: &str| parse_i64_chars(&s.chars().collect::<Vec<char>>());
    assert_eq!(read("42"), Some(42));
    assert_eq!(read("+42"), Some(42));
    assert_eq!(read("-42"), Some(-42));
    assert_eq!(read("0007"), Some(7));
    assert_eq!(read("9223372036854775807"), Some(i64::MAX));
    assert_eq!(read("-9223372036854775808"), Some(i64::MIN));
    assert_eq!(read("9223372036854775808"), None);
    assert_eq!(read(""), None);
    assert_eq!(read("+"), None);
    assert_eq!(read("-"), None);
    assert_eq!(read("1 2"), None);
    assert_eq!(read("+-1"), None);
}

#[test]
fn text_helpers() {
    assert_eq!(join2("Hello, ", "world"), "Hello, world");
    assert_eq!(utf8_len_of(&"aé🔒".chars().collect::<Vec<char>>()), 1 + 2 + 4);
    assert!(is_text_less("A1", "a1"));
    assert!(is_text_less("b", "bb"));
    assert!(!is_text_less("b", "b"));
    assert!(!is_text_less("é", "z"));
}
