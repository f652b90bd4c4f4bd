//! The simple option set shared by the query kinds that only support exact
//! matching: text, alt text, display value, placeholder text, test id, and
//! title.

use vstd::prelude::*;
use crate::json::spec_object;
use crate::json::spec_bool_str;
use crate::json::seq_views;
use crate::json::opt_part;
use crate::json::push_bool;
use crate::json::render_object;
use crate::strutil::chars_to_string;
use crate::strutil::push_str_chars;

verus! {

/// Options for queries that only support exact text matching.
#[derive(Debug, Clone)]
pub struct SimpleOptions {
    /// Whether to use exact text matching
    pub exact: Option<bool>,
}

impl SimpleOptions {
    /// The serialized members, in order.
    pub open spec fn spec_parts(self) -> Seq<Seq<char>> {
        opt_part(self.exact is Some, "\"exact\":"@ + spec_bool_str(self.exact->0))
    }

    /// The serialized form: a compact JSON object with unset fields omitted.
    pub open spec fn spec_json(self) -> Seq<char> {
        spec_object(self.spec_parts())
    }

    /// Create a new instance with every field unset.
    pub fn new() -> (r: Self)
        ensures
            r.exact is None,
    {
        SimpleOptions { exact: None }
    }

    /// Set the exact option.
    pub fn exact(self, exact: bool) -> (r: Self)
        ensures
            r.exact == Some(exact),
    {
        SimpleOptions { exact: Some(exact) }
    }

    /// The serialized form, as characters, before marker post-processing.
    pub fn to_chars(&self) -> (r: Vec<char>)
        ensures
            r@ == self.spec_json(),
    {
        let mut parts: Vec<Vec<char>> = Vec::new();
        if let Some(b) = self.exact {
            let mut f: Vec<char> = Vec::new();
            push_str_chars(&mut f, "\"exact\":");
            push_bool(&mut f, b);
            parts.push(f);
        }
        proof {
            assert(seq_views(parts@) =~= self.spec_parts());
        }
        render_object(&parts)
    }

    /// Serialize the options to a JSON string, with marker post-processing
    /// applied.
    pub fn to_json_string(&self) -> (r: String)
        ensures
            r@ == crate::text_match::spec_process(self.spec_json()),
    {
        let raw = self.to_chars();
        let processed = crate::text_match::process_chars(&raw);
        chars_to_string(&processed)
    }
}

/// An option set with every field unset serializes to the empty object.
pub proof fn lemma_empty_simple_options_json(o: SimpleOptions)
    requires
        o.exact is None,
    ensures
        o.spec_json() == "{}"@,
        crate::text_match::spec_process(o.spec_json()) == "{}"@,
{
    reveal_strlit("{}");
    assert(o.spec_parts() =~= Seq::<Seq<char>>::empty());
    assert(o.spec_json() =~= "{}"@);
    assert(!crate::text_match::spec_has_marker_start(o.spec_json())) by {
        crate::text_match::lemma_marker_start_needs_len(o.spec_json());
    }
    crate::text_match::lemma_process_no_markers(o.spec_json());
}

/// Options for text queries.
pub type ByTextOptions = SimpleOptions;

/// Options for alt text queries.
pub type ByAltTextOptions = SimpleOptions;

/// Options for display value queries.
pub type ByDisplayValueOptions = SimpleOptions;

/// Options for placeholder text queries.
pub type ByPlaceholderTextOptions = SimpleOptions;

/// Options for test ID queries.
pub type ByTestIdOptions = SimpleOptions;

/// Options for title queries.
pub type ByTitleOptions = SimpleOptions;

} // verus!
