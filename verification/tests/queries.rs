//! Regex-shape detection, query-value formatting, marker post-processing,
//! and the exact text of rendered query scripts.

use thirtyfour_testing_library_ext::{
    build_query_script, configure, format_query_value, is_regex_pattern,
    process_raw_javascript_markers, By, Method, TextMatch,
};

#[test]
fn test_is_regex_pattern() {
    // Valid regex patterns
    assert!(is_regex_pattern("/hello/"));
    assert!(is_regex_pattern("/hello/i"));
    assert!(is_regex_pattern("/^submit.*$/i"));
    assert!(is_regex_pattern("/Hello W?oRlD/i"));

    // Invalid regex patterns (not regex)
    assert!(!is_regex_pattern("hello"));
    assert!(!is_regex_pattern("hello/"));
    assert!(!is_regex_pattern("/hello"));
    assert!(!is_regex_pattern("/"));
    assert!(!is_regex_pattern(""));
    assert!(!is_regex_pattern("regular text"));
}

#[test]
fn test_format_query_value() {
    // Regular strings should be quoted
    assert_eq!(format_query_value("hello"), "'hello'");
    assert_eq!(format_query_value("Hello World"), "'Hello World'");
    assert_eq!(format_query_value("Submit"), "'Submit'");

    // Regex patterns should use marker system
    assert_eq!(format_query_value("/hello/"), "\"__RAW_JS__/hello/\"");
    assert_eq!(format_query_value("/hello/i"), "\"__RAW_JS__/hello/i\"");
    assert_eq!(format_query_value("/^submit.*$/i"), "\"__RAW_JS__/^submit.*$/i\"");
}

#[test]
fn test_regex_functionality_examples() {
    let exact_text = TextMatch::from("Hello World");
    assert!(matches!(exact_text, TextMatch::Exact(_)));
    assert_eq!(exact_text.text_value(), "Hello World");
    assert!(!exact_text.is_regex());

    let regex_text = TextMatch::from("/hello/i");
    assert!(matches!(regex_text, TextMatch::Regex(_)));
    assert_eq!(regex_text.text_value(), "/hello/i");
    assert!(regex_text.is_regex());
}

#[test]
fn test_process_raw_javascript_markers() {
    // A marker-tagged value is rewritten to the bare pattern
    let json_with_markers =
        r#"return window.__TL__.getByText(document, "__RAW_JS__/Hello World/i");"#;
    let processed = process_raw_javascript_markers(json_with_markers);
    assert_eq!(processed, r#"return window.__TL__.getByText(document, /Hello World/i);"#);

    // Regular strings remain unchanged
    let json_no_markers = r#"return window.__TL__.getByText(document, 'Hello World');"#;
    let processed_no_markers = process_raw_javascript_markers(json_no_markers);
    assert_eq!(
        processed_no_markers,
        r#"return window.__TL__.getByText(document, 'Hello World');"#
    );
}

const GUARD: &str = "if (!window.__TL__) return 'Testing Library not found'; ";

#[test]
fn test_query_script_plain_text() {
    let selector: By = By::text("Welcome").into();
    let script = build_query_script(Method::Get, &selector, &None, false);
    assert_eq!(
        script,
        format!("{GUARD}return window.__TL__.getByText(document, 'Welcome');")
    );
}

#[test]
fn test_query_script_regex_value_is_unquoted() {
    // A regex-shaped value reaches the script as a bare regex literal.
    let selector: By = By::text("/hello/i").into();
    let script = build_query_script(Method::Get, &selector, &None, false);
    assert_eq!(
        script,
        format!("{GUARD}return window.__TL__.getByText(document, /hello/i);")
    );
    assert!(!script.contains("\"/hello/i\""));
    assert!(!script.contains("__RAW_JS__"));
}

#[test]
fn test_query_script_null_filter_for_query_family() {
    let selector: By = By::text("Welcome").into();
    let script = build_query_script(Method::Query, &selector, &None, false);
    assert_eq!(
        script,
        format!("{GUARD}return [window.__TL__.queryByText(document, 'Welcome')].filter(n => n);")
    );
}

#[test]
fn test_query_script_scoped_container() {
    let selector: By = By::text("Some text").into();
    let script = build_query_script(Method::Get, &selector, &None, true);
    assert_eq!(
        script,
        format!("{GUARD}return window.__TL__.getByText(arguments[0], 'Some text');")
    );
}

#[test]
fn test_query_script_omits_unset_role_options() {
    // A role selector with no option set renders no options argument.
    let selector: By = By::role("button").into();
    let script = build_query_script(Method::Get, &selector, &None, false);
    assert_eq!(
        script,
        format!("{GUARD}return window.__TL__.getByRole(document, 'button');")
    );
    assert!(!script.contains("{}"));
}

#[test]
fn test_query_script_with_options() {
    let selector: By = By::role("button").name("Submit Form").into();
    let script = build_query_script(Method::Get, &selector, &None, false);
    assert_eq!(
        script,
        format!(
            "{GUARD}return window.__TL__.getByRole(document, 'button', {{\"name\":\"Submit Form\"}});"
        )
    );
}

#[test]
fn test_query_script_with_regex_name_option() {
    let selector: By = By::role("button").name("/Save.*Document/").into();
    let script = build_query_script(Method::Get, &selector, &None, false);
    assert_eq!(
        script,
        format!(
            "{GUARD}return window.__TL__.getByRole(document, 'button', {{\"name\":/Save.*Document/}});"
        )
    );
}

#[test]
fn test_query_script_with_configuration() {
    let selector: By = By::text("Welcome").into();
    let config = Some(configure::Options::new().with_default_hidden(true));
    let script = build_query_script(Method::Get, &selector, &config, false);
    assert_eq!(
        script,
        format!(
            "{GUARD}window.__TL__.configure({{\"defaultHidden\":true}}); \
             return window.__TL__.getByText(document, 'Welcome');"
        )
    );
}

#[test]
fn test_all_method_prefixes() {
    let selector: By = By::test_id("x").into();
    let cases = [
        (Method::Get, "getByTestId"),
        (Method::GetAll, "getAllByTestId"),
        (Method::Query, "queryByTestId"),
        (Method::QueryAll, "queryAllByTestId"),
        (Method::Find, "findByTestId"),
        (Method::FindAll, "findAllByTestId"),
    ];
    for (method, name) in cases {
        let script = build_query_script(method, &selector, &None, false);
        assert!(script.contains(name));
    }
}
