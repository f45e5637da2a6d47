use calendar::date_utils::{self, Date};

#[test]
fn test_parse_date_valid() {
    let result = date_utils::parse_date("2024-06-15");
    assert!(result.is_ok());
    let date = result.unwrap();
    assert_eq!(date.year(), 2024);
    assert_eq!(date.month(), 6);
    assert_eq!(date.day(), 15);
}

#[test]
fn test_parse_date_invalid() {
    let result = date_utils::parse_date("2024-13-01");
    assert!(result.is_err());
}

#[test]
fn test_date_range() {
    let start = date_utils::parse_date("2024-06-01").unwrap();
    let end = date_utils::parse_date("2024-06-03").unwrap();
    let dates = date_utils::date_range(start, end);
    assert_eq!(dates.len(), 3);
    assert_eq!(dates[0].day(), 1);
    assert_eq!(dates[1].day(), 2);
    assert_eq!(dates[2].day(), 3);
}

#[test]
fn date_range_crosses_month_and_year_ends() {
    let start = Date::from_ymd_opt(2023, 12, 30).unwrap();
    let end = Date::from_ymd_opt(2024, 1, 2).unwrap();
    let dates = date_utils::date_range(start, end);
    let texts: Vec<String> = dates.iter().map(date_utils::format_date).collect();
    assert_eq!(texts, vec!["2023-12-30", "2023-12-31", "2024-01-01", "2024-01-02"]);
}

#[test]
fn date_range_is_empty_when_end_precedes_start() {
    let start = Date::from_ymd_opt(2024, 6, 3).unwrap();
    let end = Date::from_ymd_opt(2024, 6, 1).unwrap();
    assert!(date_utils::date_range(start, end).is_empty());
    let single = date_utils::date_range(start, start);
    assert_eq!(single, vec![start]);
}

#[test]
fn leap_days() {
    assert!(Date::from_ymd_opt(2024, 2, 29).is_some());
    assert!(Date::from_ymd_opt(2023, 2, 29).is_none());
    assert!(Date::from_ymd_opt(1900, 2, 29).is_none());
    assert!(Date::from_ymd_opt(2000, 2, 29).is_some());
    assert!(Date::from_ymd_opt(2024, 4, 31).is_none());
    assert!(Date::from_ymd_opt(2024, 0, 1).is_none());
    let next = date_utils::next_day(&Date::from_ymd_opt(2024, 2, 28).unwrap()).unwrap();
    assert_eq!(date_utils::format_date(&next), "2024-02-29");
}

#[test]
fn format_date_pads_and_signs_years() {
    assert_eq!(date_utils::format_date(&Date::from_ymd_opt(2024, 6, 5).unwrap()), "2024-06-05");
    assert_eq!(date_utils::format_date(&Date::from_ymd_opt(33, 1, 9).unwrap()), "0033-01-09");
    assert_eq!(date_utils::format_date(&Date::from_ymd_opt(12345, 1, 9).unwrap()), "+12345-01-09");
}

#[test]
fn parse_date_error_names_the_input() {
    match date_utils::parse_date("not-a-date") {
        Err(calendar::AppError::InvalidDate { input, .. }) => assert_eq!(input, "not-a-date"),
        other => panic!("unexpected {:?}", other),
    }
}
