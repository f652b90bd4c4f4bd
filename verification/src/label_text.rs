//! Options for label text queries, which can narrow the candidate elements
//! with a CSS selector besides exact matching.

use vstd::prelude::*;
use crate::json::spec_object;
use crate::json::spec_bool_str;
use crate::json::spec_json_string;
use crate::json::seq_views;
use crate::json::push_bool;
use crate::json::push_json_string;
use crate::json::render_object;
use crate::json::opt_part;
use crate::strutil::chars_of_str;
use crate::strutil::chars_to_string;
use crate::strutil::push_str_chars;
use vstd::string::StringExecFns;

verus! {

/// Options for label text queries.
#[derive(Debug, Clone)]
pub struct ByLabelTextOptions {
    /// CSS selector to filter elements
    pub selector: Option<String>,
    /// Whether to use exact text matching
    pub exact: Option<bool>,
}

impl ByLabelTextOptions {
    /// The serialized members, in order.
    pub open spec fn spec_parts(self) -> Seq<Seq<char>> {
        opt_part(self.selector is Some, "\"selector\":"@ + spec_json_string(self.selector->0@))
            + opt_part(self.exact is Some, "\"exact\":"@ + spec_bool_str(self.exact->0))
    }

    /// The serialized form: a compact JSON object with unset fields omitted.
    pub open spec fn spec_json(self) -> Seq<char> {
        spec_object(self.spec_parts())
    }

    /// Create a new instance with every field unset.
    pub fn new() -> (r: Self)
        ensures
            r.selector is None,
            r.exact is None,
    {
        ByLabelTextOptions { selector: None, exact: None }
    }

    /// Set the selector option.
    pub fn selector(self, selector: &str) -> (r: Self)
        ensures
            r.selector matches Some(s) && s@ == selector@,
            r.exact == self.exact,
    {
        ByLabelTextOptions { selector: Some(String::from_str(selector)), exact: self.exact }
    }

    /// Set the exact option.
    pub fn exact(self, exact: bool) -> (r: Self)
        ensures
            r.selector == self.selector,
            r.exact == Some(exact),
    {
        ByLabelTextOptions { selector: self.selector, exact: Some(exact) }
    }

    /// The serialized form, as characters, before marker post-processing.
    pub fn to_chars(&self) -> (r: Vec<char>)
        ensures
            r@ == self.spec_json(),
    {
        let mut parts: Vec<Vec<char>> = Vec::new();
        if let Some(s) = &self.selector {
            let mut f: Vec<char> = Vec::new();
            push_str_chars(&mut f, "\"selector\":");
            let body = chars_of_str(s.as_str());
            push_json_string(&mut f, &body);
            parts.push(f);
        }
        if let Some(b) = self.exact {
            let mut f: Vec<char> = Vec::new();
            push_str_chars(&mut f, "\"exact\":");
            push_bool(&mut f, b);
            parts.push(f);
        }
        proof {
            assert(seq_views(parts@) =~= self.spec_parts());
        }
        render_object(&parts)
    }

    /// Serialize the options to a JSON string, with marker post-processing
    /// applied.
    pub fn to_json_string(&self) -> (r: String)
        ensures
            r@ == crate::text_match::spec_process(self.spec_json()),
    {
        let raw = self.to_chars();
        let processed = crate::text_match::process_chars(&raw);
        chars_to_string(&processed)
    }
}

/// A label text option set with every field unset serializes to the empty
/// object.
pub proof fn lemma_empty_label_text_options_json(o: ByLabelTextOptions)
    requires
        o.selector is None,
        o.exact is None,
    ensures
        o.spec_json() == "{}"@,
        crate::text_match::spec_process(o.spec_json()) == "{}"@,
{
    reveal_strlit("{}");
    assert(o.spec_parts() =~= Seq::<Seq<char>>::empty());
    assert(o.spec_json() =~= "{}"@);
    assert(!crate::text_match::spec_has_marker_start(o.spec_json())) by {
        crate::text_match::lemma_marker_start_needs_len(o.spec_json());
    }
    crate::text_match::lemma_process_no_markers(o.spec_json());
}

} // verus!
