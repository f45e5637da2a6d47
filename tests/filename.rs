use calendar::date_utils::Date;
use calendar::filename::FilenameFormatter;
use calendar::AppError;

fn test_date(year: i32, month: u32, day: u32) -> Date {
    Date::from_ymd_opt(year, month, day).unwrap()
}

#[test]
fn test_basic_format_yyyy_mm_dd() {
    let formatter = FilenameFormatter::new("{yyyy}{mm}{dd}.jpg").unwrap();
    let date = test_date(2024, 6, 15);
    assert_eq!(formatter.format(&date), "20240615.jpg");
}

#[test]
fn test_basic_format_year_month_day() {
    let formatter = FilenameFormatter::new("{year}_{month}_{day}.png").unwrap();
    let date = test_date(2024, 6, 5);
    assert_eq!(formatter.format(&date), "2024_6_5.png");
}

#[test]
fn test_two_digit_year() {
    let formatter = FilenameFormatter::new("{yy}{mm}{dd}.jpg").unwrap();
    let date = test_date(2024, 6, 15);
    assert_eq!(formatter.format(&date), "240615.jpg");

    let date2 = test_date(1999, 12, 31);
    assert_eq!(formatter.format(&date2), "991231.jpg");
}

#[test]
fn test_with_zero_padding_modifier() {
    let formatter = FilenameFormatter::new("{year}_{month:02}_{day:02}.png").unwrap();
    let date = test_date(2024, 6, 5);
    assert_eq!(formatter.format(&date), "2024_06_05.png");
}

#[test]
fn test_mixed_placeholders() {
    let formatter = FilenameFormatter::new("{yy}/{mm}/{dd}.jpg").unwrap();
    let date = test_date(2024, 1, 1);
    assert_eq!(formatter.format(&date), "24/01/01.jpg");
}

#[test]
fn test_without_zero_padding() {
    let formatter = FilenameFormatter::new("{y}{m}{d}.jpg").unwrap();
    let date = test_date(2024, 12, 31);
    assert_eq!(formatter.format(&date), "{y}1231.jpg");
}

#[test]
fn test_single_and_double_digit_dates() {
    let formatter = FilenameFormatter::new("{yyyy}-{mm}-{dd}.jpg").unwrap();

    let date1 = test_date(2024, 1, 5);
    assert_eq!(formatter.format(&date1), "2024-01-05.jpg");

    let date2 = test_date(2024, 12, 31);
    assert_eq!(formatter.format(&date2), "2024-12-31.jpg");
}

#[test]
fn test_url_formatting() {
    let formatter =
        FilenameFormatter::new("https://example.com/{year}/{month:02}/{day:02}.jpg").unwrap();
    let date = test_date(2024, 6, 5);
    assert_eq!(formatter.format_url(&date), "https://example.com/2024/06/05.jpg");
}

#[test]
fn test_empty_format_string() {
    let result = FilenameFormatter::new("");
    assert!(result.is_err());
    if let Err(AppError::FilenameFormatError { format, .. }) = result {
        assert_eq!(format, "");
    } else {
        panic!("Expected FilenameFormatError");
    }
}

#[test]
fn test_format_str() {
    let formatter = FilenameFormatter::new("{yyyy}{mm}{dd}.jpg").unwrap();
    assert_eq!(formatter.format_str(), "{yyyy}{mm}{dd}.jpg");
}

#[test]
fn test_try_from() {
    let formatter: Result<FilenameFormatter, AppError> = "{yyyy}{mm}{dd}.jpg".try_into();
    assert!(formatter.is_ok());

    let date = test_date(2024, 6, 15);
    assert_eq!(formatter.unwrap().format(&date), "20240615.jpg");
}

#[test]
fn test_with_prefix_and_suffix() {
    let formatter = FilenameFormatter::new("photo_{yyyy}{mm}{dd}.jpg").unwrap();
    let date = test_date(2024, 6, 15);
    assert_eq!(formatter.format(&date), "photo_20240615.jpg");
}

#[test]
fn test_three_digit_width() {
    let formatter = FilenameFormatter::new("{day:03}.jpg").unwrap();
    let date = test_date(2024, 6, 5);
    assert_eq!(formatter.format(&date), "005.jpg");
}

#[test]
fn width_placeholders_with_unknown_names_or_bad_widths_stay() {
    let date = test_date(2024, 6, 5);
    let f = FilenameFormatter::new("{hour:02}-{day:x}-{month:+3}-{year:9}").unwrap();
    assert_eq!(f.format(&date), "{hour:02}-{day:x}-006-2024");
    let g = FilenameFormatter::new("{{day:2}}").unwrap();
    assert_eq!(g.format(&date), "{{day:2}}");
    let h = FilenameFormatter::new("{}{day:2}").unwrap();
    assert_eq!(h.format(&date), "{}05");
}

#[test]
fn two_digit_year_of_small_years() {
    let f = FilenameFormatter::new("{yy}").unwrap();
    assert_eq!(f.format(&test_date(2005, 1, 1)), "05");
    assert_eq!(f.format(&test_date(-2024, 1, 1)), "24");
}
