use datadog_mcp::input_validation::{
    is_valid_dashboard_layout, is_valid_monitor_type, join_strs, validate_dashboard_layout,
    validate_dashboard_title, validate_monitor_name, validate_monitor_query,
    validate_monitor_type, ValidationError, VALID_MONITOR_TYPES,
};

#[test]
fn test_valid_monitor_types() {
    assert!(validate_monitor_type("metric alert").is_ok());
    assert!(validate_monitor_type("log alert").is_ok());
    assert!(validate_monitor_type("query alert").is_ok());
    assert!(validate_monitor_type("composite").is_ok());
    assert!(validate_monitor_type("slo alert").is_ok());
}

#[test]
fn test_monitor_type_case_insensitive() {
    assert!(validate_monitor_type("Metric Alert").is_ok());
    assert!(validate_monitor_type("LOG ALERT").is_ok());
    assert!(validate_monitor_type("Query Alert").is_ok());
}

#[test]
fn test_invalid_monitor_type() {
    let result = validate_monitor_type("invalid type");
    assert!(result.is_err());
    let err = result.unwrap_err();
    assert!(err.message().contains("Invalid monitor type"));
    assert!(err.message().contains("metric alert"));
}

#[test]
fn test_valid_dashboard_layouts() {
    assert!(validate_dashboard_layout("ordered").is_ok());
    assert!(validate_dashboard_layout("free").is_ok());
}

#[test]
fn test_dashboard_layout_case_insensitive() {
    assert!(validate_dashboard_layout("Ordered").is_ok());
    assert!(validate_dashboard_layout("FREE").is_ok());
}

#[test]
fn test_invalid_dashboard_layout() {
    let result = validate_dashboard_layout("grid");
    assert!(result.is_err());
    assert!(result
        .unwrap_err()
        .message()
        .contains("Invalid dashboard layout"));
}

#[test]
fn test_validate_monitor_query() {
    assert!(validate_monitor_query("avg:system.cpu.user{*}").is_ok());
    assert!(validate_monitor_query("  ").is_err());
    assert!(validate_monitor_query("").is_err());
}

#[test]
fn test_validate_monitor_name() {
    assert!(validate_monitor_name("My Monitor").is_ok());
    assert!(validate_monitor_name("  ").is_err());
    assert!(validate_monitor_name("").is_err());
}

#[test]
fn test_validate_dashboard_title() {
    assert!(validate_dashboard_title("My Dashboard").is_ok());
    assert!(validate_dashboard_title("  ").is_err());
    assert!(validate_dashboard_title("").is_err());
}

#[test]
fn invalid_monitor_type_message_lists_all_types() {
    let err = validate_monitor_type("bogus").unwrap_err();
    let expected = format!(
        "Invalid monitor type 'bogus'. Valid types: {}",
        VALID_MONITOR_TYPES.join(", ")
    );
    assert_eq!(err.message(), expected);
}

#[test]
fn join_matches_std_join() {
    assert_eq!(join_strs(&VALID_MONITOR_TYPES, ", "), VALID_MONITOR_TYPES.join(", "));
    assert_eq!(join_strs(&[], ", "), "");
    assert_eq!(join_strs(&["a"], "-"), "a");
}

#[test]
fn normalized_lookups_are_exact() {
    assert!(is_valid_monitor_type("database-monitoring alert"));
    assert!(!is_valid_monitor_type("Metric Alert"));
    assert!(is_valid_dashboard_layout("free"));
    assert!(!is_valid_dashboard_layout("grid"));
}

#[test]
fn empty_field_messages_name_the_field() {
    assert_eq!(
        validate_monitor_query("\t\n").unwrap_err().message(),
        "Empty query is not allowed"
    );
    assert_eq!(
        validate_monitor_name(" ").unwrap_err().message(),
        "Empty name is not allowed"
    );
    assert_eq!(
        validate_dashboard_title("").unwrap_err().message(),
        "Empty title is not allowed"
    );
    assert_eq!(
        ValidationError::Custom("custom".to_string()).message(),
        "custom"
    );
}

#[test]
fn invalid_layout_message_echoes_input() {
    assert_eq!(
        validate_dashboard_layout("Grid").unwrap_err().message(),
        "Invalid dashboard layout 'Grid'. Valid layouts: ordered, free"
    );
}
