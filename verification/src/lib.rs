//! Semantic DOM query construction for a WebDriver automation client.
//!
//! The crate builds selector descriptors with typed option sets, serializes
//! them into the script-injectable argument form that the injected
//! testing-utility library expects (including the unquoted regular-expression
//! encoding), renders the full query scripts, and models the dispatch and
//! library-recovery protocol. Executing the rendered scripts against a live
//! browser session is left to a thin driver layer around this crate.

pub mod configure;
pub mod dispatch;
pub mod json;
pub mod label_text;
pub mod role;
pub mod script;
pub mod selector;
pub mod simple;
pub mod strutil;
pub mod text_match;

pub use dispatch::LibraryRecovery;
pub use dispatch::Method;
pub use dispatch::RecoveryAction;
pub use dispatch::build_query_script;
pub use dispatch::normalize_query;
pub use dispatch::playground_url_result;
pub use label_text::ByLabelTextOptions;
pub use role::ByRoleOptions;
pub use role::CurrentState;
pub use role::ValueOptions;
pub use script::format_query_value;
pub use script::is_library_not_found;
pub use script::library_not_found_sentinel;
pub use script::playground_script;
pub use selector::By;
pub use selector::LabelTextSelector;
pub use selector::Options;
pub use selector::RoleSelector;
pub use selector::SimpleSelector;
pub use simple::ByAltTextOptions;
pub use simple::ByDisplayValueOptions;
pub use simple::ByPlaceholderTextOptions;
pub use simple::ByTestIdOptions;
pub use simple::ByTextOptions;
pub use simple::ByTitleOptions;
pub use simple::SimpleOptions;
pub use text_match::RawJavaScript;
pub use text_match::TextMatch;
pub use text_match::is_regex_pattern;
pub use text_match::process_raw_javascript_markers;
