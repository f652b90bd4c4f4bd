//! Serialization of the simple, label text, title and configuration option
//! sets.

use thirtyfour_testing_library_ext::configure;
use thirtyfour_testing_library_ext::{
    ByAltTextOptions, ByDisplayValueOptions, ByLabelTextOptions, ByPlaceholderTextOptions,
    ByTestIdOptions, ByTextOptions, ByTitleOptions, SimpleOptions,
};

#[test]
fn test_simple_options_empty_serialization() {
    let options = SimpleOptions::new();
    let json = options.to_json_string();
    assert_eq!(json, "{}");
}

#[test]
fn test_simple_options_exact_true_serialization() {
    let options = SimpleOptions::new().exact(true);

    let json_value: serde_json::Value = serde_json::from_str(&options.to_json_string()).unwrap();
    assert_eq!(json_value["exact"], true);
}

#[test]
fn test_simple_options_exact_false_serialization() {
    let options = SimpleOptions::new().exact(false);

    let json_value: serde_json::Value = serde_json::from_str(&options.to_json_string()).unwrap();
    assert_eq!(json_value["exact"], false);
}

#[test]
fn test_simple_options_json_string() {
    let options = SimpleOptions::new().exact(true);

    let json_string = options.to_json_string();
    assert!(json_string.contains("\"exact\":true"));
}

#[test]
fn test_type_aliases() {
    let text_options = ByTextOptions::new().exact(true);
    let alt_text_options = ByAltTextOptions::new().exact(false);
    let display_value_options = ByDisplayValueOptions::new().exact(true);
    let placeholder_text_options = ByPlaceholderTextOptions::new().exact(false);
    let test_id_options = ByTestIdOptions::new().exact(true);
    let title_options = ByTitleOptions::new().exact(false);

    // All should serialize correctly
    assert!(text_options.to_json_string().contains("\"exact\":true"));
    assert!(alt_text_options.to_json_string().contains("\"exact\":false"));
    assert!(display_value_options.to_json_string().contains("\"exact\":true"));
    assert!(placeholder_text_options.to_json_string().contains("\"exact\":false"));
    assert!(test_id_options.to_json_string().contains("\"exact\":true"));
    assert!(title_options.to_json_string().contains("\"exact\":false"));
}

#[test]
fn test_label_text_options_empty_serialization() {
    let options = ByLabelTextOptions::new();
    let json = options.to_json_string();
    assert_eq!(json, "{}");
}

#[test]
fn test_label_text_options_basic_serialization() {
    let options = ByLabelTextOptions::new().selector("input").exact(false);

    let json_value: serde_json::Value = serde_json::from_str(&options.to_json_string()).unwrap();
    assert_eq!(json_value["selector"], "input");
    assert_eq!(json_value["exact"], false);
}

#[test]
fn test_label_text_options_partial_serialization() {
    let options = ByLabelTextOptions::new().exact(true);

    let json_value: serde_json::Value = serde_json::from_str(&options.to_json_string()).unwrap();
    assert!(json_value["selector"].is_null());
    assert_eq!(json_value["exact"], true);
}

#[test]
fn test_label_text_options_json_string() {
    let options = ByLabelTextOptions::new().selector("textarea").exact(true);

    let json_string = options.to_json_string();
    assert!(json_string.contains("\"selector\":\"textarea\""));
    assert!(json_string.contains("\"exact\":true"));
}

#[test]
fn test_title_options_empty_serialization() {
    let options = ByTitleOptions::new();
    let json = options.to_json_string();
    assert_eq!(json, "{}");
}

#[test]
fn test_title_options_exact_true_serialization() {
    let options = ByTitleOptions::new().exact(true);

    let json_value: serde_json::Value = serde_json::from_str(&options.to_json_string()).unwrap();
    assert_eq!(json_value["exact"], true);
}

#[test]
fn test_title_options_exact_false_serialization() {
    let options = ByTitleOptions::new().exact(false);

    let json_value: serde_json::Value = serde_json::from_str(&options.to_json_string()).unwrap();
    assert_eq!(json_value["exact"], false);
}

#[test]
fn test_title_options_json_string() {
    let options = ByTitleOptions::new().exact(true);

    let json_string = options.to_json_string();
    assert!(json_string.contains("\"exact\":true"));
}

#[test]
fn test_configure_options_empty_serialization() {
    let options = configure::Options::new();
    assert_eq!(options.to_json_string(), "{}");
}

#[test]
fn test_configure_options_full_serialization() {
    let options = configure::Options::new()
        .with_computed_style_supports_pseudo_elements(true)
        .with_default_hidden(false)
        .with_default_ignore("script, style")
        .with_show_original_stack_trace(true)
        .with_throw_suggestions(false)
        .with_test_id_attribute("data-testid")
        .with_async_util_timeout(1000);

    let json_string = options.to_json_string();
    assert_eq!(
        json_string,
        "{\"computedStyleSupportsPseudoElements\":true,\"defaultHidden\":false,\
         \"defaultIgnore\":\"script, style\",\"showOriginalStackTrace\":true,\
         \"throwSuggestions\":false,\"testIdAttribute\":\"data-testid\",\
         \"asyncUtilTimeout\":1000}"
    );
}

#[test]
fn test_configure_options_escapes_strings() {
    let options = configure::Options::new().with_default_ignore("a\"b\\c\n");
    assert_eq!(options.to_json_string(), "{\"defaultIgnore\":\"a\\\"b\\\\c\\n\"}");
}
