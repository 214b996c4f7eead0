use easyproject_mcp_server::dates::is_valid_date_string;
use easyproject_mcp_server::validation::{
    validate_email, validate_date_format, validate_hours, validate_project_identifier,
    validate_percentage, is_valid_date_range, is_valid_limit,
    is_valid_offset, is_valid_done_ratio, is_valid_hours_milli, validate_positive_id,
    validate_text_length, validate_url, validate_priority, validate_pagination_limit,
    validate_pagination_offset,
};

fn is_valid_hours(hours: f64) -> bool {
    is_valid_hours_milli((hours * 1000.0).round() as i64)
}

#[test]
fn test_validate_email() {
    assert!(validate_email("test@example.com"));
    assert!(validate_email("user.name+tag@domain.co.uk"));
    assert!(!validate_email("invalid-email"));
    assert!(!validate_email("@domain.com"));
    assert!(!validate_email("user@"));
}

#[test]
fn test_validate_date_format() {
    assert!(validate_date_format("2024-01-15").is_ok());
    assert!(validate_date_format("2024-12-31").is_ok());
    assert!(validate_date_format("invalid-date").is_err());
    assert!(validate_date_format("2024-13-01").is_err());
}

#[test]
fn test_validate_hours() {
    assert!(validate_hours(8_000).is_ok());
    assert!(validate_hours(500).is_ok());
    assert!(validate_hours(24_000).is_ok());
    assert!(validate_hours(0).is_err());
    assert!(validate_hours(-1_000).is_err());
    assert!(validate_hours(25_000).is_err());
}

#[test]
fn test_validate_project_identifier() {
    assert!(validate_project_identifier("my-project").is_ok());
    assert!(validate_project_identifier("project_123").is_ok());
    assert!(validate_project_identifier("PROJECT-NAME").is_ok());
    assert!(validate_project_identifier("").is_err());
    assert!(validate_project_identifier("project with spaces").is_err());
    assert!(validate_project_identifier("project@domain").is_err());
}

#[test]
fn test_validate_percentage() {
    assert!(validate_percentage(0, "test").is_ok());
    assert!(validate_percentage(50, "test").is_ok());
    assert!(validate_percentage(100, "test").is_ok());
    assert!(validate_percentage(-1, "test").is_err());
    assert!(validate_percentage(101, "test").is_err());
}

#[test]
fn test_date_validation() {
    assert!(is_valid_date_string("2023-12-25"));
    assert!(!is_valid_date_string("2023-13-25"));
    assert!(!is_valid_date_string("not-a-date"));
    assert!(!is_valid_date_string("2023/12/25"));
}

#[test]
fn test_date_range_validation() {
    assert!(is_valid_date_range(
        Some("2023-01-01".to_string()),
        Some("2023-12-31".to_string())
    ));

    assert!(!is_valid_date_range(
        Some("2023-12-31".to_string()),
        Some("2023-01-01".to_string())
    ));

    assert!(is_valid_date_range(None, None));
    assert!(is_valid_date_range(Some("2023-01-01".to_string()), None));
    assert!(is_valid_date_range(None, Some("2023-12-31".to_string())));
}

#[test]
fn test_parameter_validation() {
    assert!(is_valid_limit(25));
    assert!(is_valid_limit(1));
    assert!(is_valid_limit(100));
    assert!(!is_valid_limit(0));
    assert!(!is_valid_limit(101));

    assert!(is_valid_offset(0));
    assert!(is_valid_offset(1000));
    assert!(!is_valid_offset(-1));

    assert!(is_valid_done_ratio(0));
    assert!(is_valid_done_ratio(50));
    assert!(is_valid_done_ratio(100));
    assert!(!is_valid_done_ratio(-1));
    assert!(!is_valid_done_ratio(101));

    assert!(is_valid_hours(0.1));
    assert!(is_valid_hours(8.0));
    assert!(is_valid_hours(24.0));
    assert!(!is_valid_hours(0.0));
    assert!(!is_valid_hours(24.1));
}

#[test]
fn other_validators_report_exact_bounds() {
    assert!(validate_positive_id(1, "id").is_ok());
    assert!(validate_positive_id(0, "id").is_err());
    assert!(validate_text_length("abc", "name", 1, 5).is_ok());
    assert!(validate_text_length("", "name", 1, 5).is_err());
    assert!(validate_text_length("abcdef", "name", 1, 5).is_err());
    assert!(validate_url("").is_ok());
    assert!(validate_url("https://example.com").is_ok());
    assert!(validate_url("ftp://example.com").is_err());
    assert!(validate_priority(1).is_ok());
    assert!(validate_priority(10).is_ok());
    assert!(validate_priority(0).is_err());
    assert!(validate_priority(11).is_err());
    assert!(validate_pagination_limit(1).is_ok());
    assert!(validate_pagination_limit(0).is_err());
    assert!(validate_pagination_limit(101).is_err());
    assert!(validate_pagination_offset(0).is_ok());
    assert!(validate_pagination_offset(-1).is_err());
}
