use easyproject_mcp_server::dates::{
    Date, DateRange, parse_date, parse_date_flexible, parse_date_string, parse_datetime,
    format_date, format_datetime, is_business_day, is_weekend, business_days_between,
};

#[test]
fn test_parse_date() {
    assert!(parse_date("2024-01-15").is_ok());
    assert!(parse_date("2024-12-31").is_ok());
    assert!(parse_date("invalid").is_err());
}

#[test]
fn test_parse_date_flexible() {
    assert!(parse_date_flexible("2024-01-15").is_ok());
    assert!(parse_date_flexible("15.01.2024").is_ok());
    assert!(parse_date_flexible("15/01/2024").is_ok());
    assert!(parse_date_flexible("2024/01/15").is_ok());
    assert!(parse_date_flexible("invalid").is_err());
}

#[test]
fn test_business_days() {
    let monday = Date::new(2024, 1, 15).unwrap();
    let friday = Date::new(2024, 1, 19).unwrap();
    let saturday = Date::new(2024, 1, 20).unwrap();

    assert!(is_business_day(monday));
    assert!(is_business_day(friday));
    assert!(!is_business_day(saturday));
    assert!(is_weekend(saturday));

    assert_eq!(business_days_between(monday, friday), 5);
}

#[test]
fn test_date_range() {
    let start = Date::new(2024, 1, 1).unwrap();
    let end = Date::new(2024, 1, 31).unwrap();
    let range = DateRange::new(start, end).unwrap();

    assert_eq!(range.days_count(), 31);
    assert!(range.contains(Date::new(2024, 1, 15).unwrap()));
    assert!(!range.contains(Date::new(2024, 2, 1).unwrap()));
}

#[test]
fn test_date_parsing() {
    let result = parse_date_string("2023-12-25");
    assert!(result.is_ok());
    assert_eq!(result.unwrap(), Date::new(2023, 12, 25).unwrap());

    let result = parse_date_string("invalid");
    assert!(result.is_err());
}

#[test]
fn test_datetime_formatting() {
    let dt = parse_datetime("2023-12-25T10:30:00Z").unwrap();
    let formatted = format_datetime(&dt);
    assert_eq!(formatted, "25.12.2023 10:30:00 UTC");
}

#[test]
fn test_date_formatting() {
    let date = Date::new(2023, 12, 25).unwrap();
    let formatted = format_date(&date);
    assert_eq!(formatted, "25.12.2023");
}

#[test]
fn flexible_parsing_agrees_across_shapes() {
    let a = parse_date_flexible("2024-01-15").unwrap();
    let b = parse_date_flexible("15.01.2024").unwrap();
    let c = parse_date_flexible("15/01/2024").unwrap();
    let d = parse_date_flexible("2024/01/15").unwrap();
    assert_eq!(a, b);
    assert_eq!(b, c);
    assert_eq!(c, d);
    assert_eq!(a, Date::new(2024, 1, 15).unwrap());
}

#[test]
fn leap_years_have_a_february_twentyninth() {
    assert!(Date::new(2024, 2, 29).is_some());
    assert!(Date::new(2023, 2, 29).is_none());
    assert!(Date::new(1900, 2, 29).is_none());
    assert!(Date::new(2000, 2, 29).is_some());
}
