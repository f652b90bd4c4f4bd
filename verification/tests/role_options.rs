//! Serialization of the role option set, including regex-valued filters and
//! the marker post-processing pass.

use thirtyfour_testing_library_ext::{
    process_raw_javascript_markers, ByRoleOptions, CurrentState, TextMatch, ValueOptions,
};

fn marked_json(options: &ByRoleOptions) -> String {
    options.to_marked_chars().into_iter().collect()
}

#[test]
fn role_test_empty_options_serialization() {
    let options = ByRoleOptions::new();
    let json = options.to_json_string();
    assert_eq!(json, "{}");
}

#[test]
fn role_test_basic_options_serialization() {
    let options = ByRoleOptions::new().hidden(true).selected(false);

    let json_value: serde_json::Value = serde_json::from_str(&options.to_json_string()).unwrap();
    assert_eq!(json_value["hidden"], true);
    assert_eq!(json_value["selected"], false);
    assert!(json_value["name"].is_null());
}

#[test]
fn role_test_text_match_exact_serialization() {
    let options = ByRoleOptions::new().name(TextMatch::Exact("Submit".to_string()));

    let json_value: serde_json::Value = serde_json::from_str(&options.to_json_string()).unwrap();
    assert_eq!(json_value["name"], "Submit");
}

#[test]
fn role_test_text_match_regex_serialization() {
    let options = ByRoleOptions::new().name(TextMatch::Regex("/^submit.*/".to_string()));

    // The string serialization processes the markers away.
    let json_string = options.to_json_string();
    assert!(json_string.contains("/^submit.*/"));

    // The serialized form before post-processing carries the raw marker.
    let marked = marked_json(&options);
    assert!(marked.contains("__RAW_JS__/^submit.*/"));
}

#[test]
fn role_test_current_state_serialization() {
    let options_false = ByRoleOptions::new().current(CurrentState::False);
    let json_false: serde_json::Value =
        serde_json::from_str(&options_false.to_json_string()).unwrap();
    assert_eq!(json_false["current"], false);

    let options_page = ByRoleOptions::new().current(CurrentState::Page);
    let json_page: serde_json::Value =
        serde_json::from_str(&options_page.to_json_string()).unwrap();
    assert_eq!(json_page["current"], "page");

    let options_custom = ByRoleOptions::new().current(CurrentState::Custom(
        "custom-value".to_string(),
    ));
    let json_custom: serde_json::Value =
        serde_json::from_str(&options_custom.to_json_string()).unwrap();
    assert_eq!(json_custom["current"], "custom-value");
}

#[test]
fn role_test_value_options_serialization() {
    let value_opts = ValueOptions {
        min: Some(0),
        max: Some(100),
        now: Some(50),
        text: Some(TextMatch::Exact("medium".to_string())),
    };

    let options = ByRoleOptions::new().value(value_opts);

    let json_value: serde_json::Value = serde_json::from_str(&options.to_json_string()).unwrap();
    assert_eq!(json_value["value"]["min"], 0);
    assert_eq!(json_value["value"]["max"], 100);
    assert_eq!(json_value["value"]["now"], 50);
    assert_eq!(json_value["value"]["text"], "medium");
}

#[test]
fn role_test_query_fallbacks_rename() {
    let options = ByRoleOptions::new().query_fallbacks(true);

    let json_value: serde_json::Value = serde_json::from_str(&options.to_json_string()).unwrap();
    assert_eq!(json_value["queryFallbacks"], true);
    assert!(json_value["query_fallbacks"].is_null());
}

#[test]
fn role_test_complex_options_serialization() {
    let options = ByRoleOptions::new()
        .name(TextMatch::Substring("button".to_string()))
        .hidden(false)
        .pressed(true)
        .level(2)
        .current(CurrentState::Page);

    let json_string = options.to_json_string();

    // Parse back to verify structure
    let parsed: serde_json::Value = serde_json::from_str(&json_string).unwrap();
    assert_eq!(parsed["name"], "button");
    assert_eq!(parsed["hidden"], false);
    assert_eq!(parsed["pressed"], true);
    assert_eq!(parsed["level"], 2);
    assert_eq!(parsed["current"], "page");
}

#[test]
fn role_test_serialization_example() {
    // Example usage: Creating complex options for a button query
    let options = ByRoleOptions::new()
        .name(TextMatch::Regex("/submit|send/".to_string()))
        .pressed(false)
        .hidden(false)
        .suggest(true);

    let json_string = options.to_json_string();
    println!("Serialized options: {json_string}");

    // The processed JSON is not valid JSON because the regex is unquoted.
    // This is intentional for JavaScript consumption.
    assert!(json_string.contains("/submit|send/"));
    assert!(json_string.contains("\"pressed\":false"));
    assert!(json_string.contains("\"hidden\":false"));
    assert!(json_string.contains("\"suggest\":true"));
}

#[test]
fn role_test_regex_validation() {
    // Valid regex patterns
    let valid_regex = TextMatch::Regex("/test.*/".to_string());
    assert!(valid_regex.validate_regex().is_ok());

    let valid_regex_with_flags = TextMatch::Regex("/test.*/i".to_string());
    assert!(valid_regex_with_flags.validate_regex().is_ok());

    // Invalid regex patterns
    let invalid_no_slashes = TextMatch::Regex("test.*".to_string());
    assert!(invalid_no_slashes.validate_regex().is_err());

    let invalid_pattern = TextMatch::Regex("/[/".to_string());
    assert!(invalid_pattern.validate_regex().is_err());

    // Non-regex variants should always be valid
    let exact_match = TextMatch::Exact("test".to_string());
    assert!(exact_match.validate_regex().is_ok());
}

#[test]
fn role_test_raw_javascript_marker_processing() {
    // Test the marker processing function
    let json_with_markers = r#"{"name":"__RAW_JS__/Save.*/","pressed":false}"#;
    let processed = process_raw_javascript_markers(json_with_markers);
    assert_eq!(processed, r#"{"name":/Save.*/,"pressed":false}"#);

    // Test with flags
    let json_with_flags = r#"{"name":"__RAW_JS__/save/i","hidden":true}"#;
    let processed_flags = process_raw_javascript_markers(json_with_flags);
    assert_eq!(processed_flags, r#"{"name":/save/i,"hidden":true}"#);

    // Test with multiple markers
    let json_multiple = r#"{"name":"__RAW_JS__/button/","description":"__RAW_JS__/click.*/i"}"#;
    let processed_multiple = process_raw_javascript_markers(json_multiple);
    assert_eq!(processed_multiple, r#"{"name":/button/,"description":/click.*/i}"#);

    // Test with no markers (should remain unchanged)
    let json_no_markers = r#"{"name":"button","pressed":true}"#;
    let processed_no_markers = process_raw_javascript_markers(json_no_markers);
    assert_eq!(processed_no_markers, r#"{"name":"button","pressed":true}"#);
}

#[test]
fn role_test_validation_error_messages() {
    let no_slash = TextMatch::Regex("test.*".to_string());
    assert_eq!(
        no_slash.validate_regex().unwrap_err(),
        "Regex pattern must start with '/' (e.g., '/pattern/' or '/pattern/i')"
    );

    let single_slash = TextMatch::Regex("/".to_string());
    assert_eq!(
        single_slash.validate_regex().unwrap_err(),
        "Regex pattern must contain at least one '/' after the pattern (e.g., '/pattern/')"
    );

    let bad_inner = TextMatch::Regex("/[/".to_string());
    let message = bad_inner.validate_regex().unwrap_err();
    assert!(message.starts_with("Invalid regex pattern: "));
}

#[test]
fn role_test_round_trip_three_fields() {
    // hidden, selected and an exact name: exactly those three keys survive.
    let options = ByRoleOptions::new()
        .hidden(true)
        .selected(false)
        .name(TextMatch::Exact("Submit".to_string()));

    let json_string = options.to_json_string();
    assert_eq!(json_string, "{\"hidden\":true,\"name\":\"Submit\",\"selected\":false}");

    let parsed: serde_json::Value = serde_json::from_str(&json_string).unwrap();
    let object = parsed.as_object().unwrap();
    assert_eq!(object.len(), 3);
    assert_eq!(object["hidden"], true);
    assert_eq!(object["selected"], false);
    assert_eq!(object["name"], "Submit");
}
