//! Library-wide configuration applied before every query.
//!
//! The options are not tied to one query: an execution context carries them
//! and the script builder prepends a one-shot configuration call to every
//! rendered script.

use vstd::prelude::*;
use vstd::string::StringExecFns;
use crate::json::spec_object;
use crate::json::spec_bool_str;
use crate::json::spec_json_string;
use crate::json::spec_dec_digits;
use crate::json::seq_views;
use crate::json::opt_part;
use crate::json::push_part_bool;
use crate::json::push_part_string;
use crate::json::push_part_u64;
use crate::json::render_object;
use crate::strutil::chars_to_string;

verus! {

/// Configuration options for the injected testing-utility library.
#[derive(Debug, Clone)]
pub struct Options {
    /// Set to true if window.getComputedStyle supports pseudo-elements,
    /// i.e. a second argument. In a browser this is almost always wanted.
    pub computed_style_supports_pseudo_elements: Option<bool>,
    /// The default value for the hidden option used by role queries.
    pub default_hidden: Option<bool>,
    /// The default value for the ignore option used by text queries; also
    /// determines the nodes ignored when errors are printed.
    pub default_ignore: Option<String>,
    /// Whether to keep the original stack trace for errors thrown while
    /// waiting, instead of the cleaned-up one.
    pub show_original_stack_trace: Option<bool>,
    /// When enabled, a query for which a better one is available fails and
    /// suggests that query instead.
    pub throw_suggestions: Option<bool>,
    /// The attribute used by test-id queries.
    pub test_id_attribute: Option<String>,
    /// The global timeout in milliseconds used by the waiting utilities.
    pub async_util_timeout: Option<u64>,
}

impl Options {
    /// The serialized members, in order, with camelCase keys.
    pub open spec fn spec_parts(self) -> Seq<Seq<char>> {
        opt_part(
            self.computed_style_supports_pseudo_elements is Some,
            "\"computedStyleSupportsPseudoElements\":"@ + spec_bool_str(
                self.computed_style_supports_pseudo_elements->0,
            ),
        ) + opt_part(
            self.default_hidden is Some,
            "\"defaultHidden\":"@ + spec_bool_str(self.default_hidden->0),
        ) + opt_part(
            self.default_ignore is Some,
            "\"defaultIgnore\":"@ + spec_json_string(self.default_ignore->0@),
        ) + opt_part(
            self.show_original_stack_trace is Some,
            "\"showOriginalStackTrace\":"@ + spec_bool_str(self.show_original_stack_trace->0),
        ) + opt_part(
            self.throw_suggestions is Some,
            "\"throwSuggestions\":"@ + spec_bool_str(self.throw_suggestions->0),
        ) + opt_part(
            self.test_id_attribute is Some,
            "\"testIdAttribute\":"@ + spec_json_string(self.test_id_attribute->0@),
        ) + opt_part(
            self.async_util_timeout is Some,
            "\"asyncUtilTimeout\":"@ + spec_dec_digits(self.async_util_timeout->0 as nat),
        )
    }

    /// The serialized form: a compact JSON object with unset fields omitted.
    pub open spec fn spec_json(self) -> Seq<char> {
        spec_object(self.spec_parts())
    }

    /// The all-unset configuration.
    pub open spec fn spec_empty() -> Options {
        Options {
            computed_style_supports_pseudo_elements: None,
            default_hidden: None,
            default_ignore: None,
            show_original_stack_trace: None,
            throw_suggestions: None,
            test_id_attribute: None,
            async_util_timeout: None,
        }
    }

    /// Creates a new instance with every value unset.
    pub fn new() -> (r: Self)
        ensures
            r == Options::spec_empty(),
    {
        Options {
            computed_style_supports_pseudo_elements: None,
            default_hidden: None,
            default_ignore: None,
            show_original_stack_trace: None,
            throw_suggestions: None,
            test_id_attribute: None,
            async_util_timeout: None,
        }
    }

    /// Set computed_style_supports_pseudo_elements.
    pub fn with_computed_style_supports_pseudo_elements(self, value: bool) -> (r: Self)
        ensures
            r == (Options { computed_style_supports_pseudo_elements: Some(value), ..self }),
    {
        Options { computed_style_supports_pseudo_elements: Some(value), ..self }
    }

    /// Set default_hidden.
    pub fn with_default_hidden(self, value: bool) -> (r: Self)
        ensures
            r == (Options { default_hidden: Some(value), ..self }),
    {
        Options { default_hidden: Some(value), ..self }
    }

    /// Set default_ignore.
    pub fn with_default_ignore(self, value: &str) -> (r: Self)
        ensures
            r.default_ignore matches Some(s) && s@ == value@,
            r == (Options { default_ignore: r.default_ignore, ..self }),
    {
        Options { default_ignore: Some(String::from_str(value)), ..self }
    }

    /// Set show_original_stack_trace.
    pub fn with_show_original_stack_trace(self, value: bool) -> (r: Self)
        ensures
            r == (Options { show_original_stack_trace: Some(value), ..self }),
    {
        Options { show_original_stack_trace: Some(value), ..self }
    }

    /// Set throw_suggestions.
    pub fn with_throw_suggestions(self, value: bool) -> (r: Self)
        ensures
            r == (Options { throw_suggestions: Some(value), ..self }),
    {
        Options { throw_suggestions: Some(value), ..self }
    }

    /// Set test_id_attribute.
    pub fn with_test_id_attribute(self, value: &str) -> (r: Self)
        ensures
            r.test_id_attribute matches Some(s) && s@ == value@,
            r == (Options { test_id_attribute: r.test_id_attribute, ..self }),
    {
        Options { test_id_attribute: Some(String::from_str(value)), ..self }
    }

    /// Set async_util_timeout.
    pub fn with_async_util_timeout(self, value: u64) -> (r: Self)
        ensures
            r == (Options { async_util_timeout: Some(value), ..self }),
    {
        Options { async_util_timeout: Some(value), ..self }
    }

    /// Serialize the options to a JSON string.
    pub fn to_json_string(&self) -> (r: String)
        ensures
            r@ == self.spec_json(),
    {
        let chars = self.to_chars();
        chars_to_string(&chars)
    }

    /// The serialized form, as characters.
    pub fn to_chars(&self) -> (r: Vec<char>)
        ensures
            r@ == self.spec_json(),
    {
        let mut parts: Vec<Vec<char>> = Vec::new();
        push_part_bool(
            &mut parts,
            "\"computedStyleSupportsPseudoElements\":",
            self.computed_style_supports_pseudo_elements,
        );
        push_part_bool(&mut parts, "\"defaultHidden\":", self.default_hidden);
        push_part_string(&mut parts, "\"defaultIgnore\":", &self.default_ignore);
        push_part_bool(&mut parts, "\"showOriginalStackTrace\":", self.show_original_stack_trace);
        push_part_bool(&mut parts, "\"throwSuggestions\":", self.throw_suggestions);
        push_part_string(&mut parts, "\"testIdAttribute\":", &self.test_id_attribute);
        push_part_u64(&mut parts, "\"asyncUtilTimeout\":", self.async_util_timeout);
        proof {
            assert(seq_views(parts@) =~= self.spec_parts());
        }
        render_object(&parts)
    }
}

/// A configuration with every field unset serializes to the empty object.
pub proof fn lemma_empty_configure_options_json(o: Options)
    requires
        o == Options::spec_empty(),
    ensures
        o.spec_json() == "{}"@,
{
    reveal_strlit("{}");
    assert(o.spec_parts() =~= Seq::<Seq<char>>::empty());
    assert(o.spec_json() =~= "{}"@);
}

} // verus!
