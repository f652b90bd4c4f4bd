//! The single execution path shared by the query families, and the
//! library-recovery protocol.
//!
//! A query is rendered to one script; the driver layer executes it against
//! the automation channel. When the result is exactly the library-absent
//! sentinel, the library source is injected once and the same script is run
//! once more; the retry's outcome, whatever it is, is the final one. The
//! recovery decision is a state machine here, so the driver loop holds no
//! logic of its own.

use vstd::prelude::*;
use vstd::string::StringExecFns;
use crate::configure;
use crate::script::spec_container;
use crate::script::spec_guard;
use crate::script::spec_query_script;
use crate::script::spec_wrap_configure;
use crate::script::spec_format_query_value;
use crate::script::container_expr;
use crate::script::guard_chars;
use crate::script::query_script_chars;
use crate::script::wrap_configure_chars;
use crate::selector::By;
use crate::strutil::chars_to_string;
use crate::strutil::push_str_chars;
use crate::text_match::process_chars;
use crate::text_match::spec_process;
use crate::text_match::spec_is_regex_shape;
use crate::text_match::spec_marker;
use crate::text_match::spec_quote_free;
use crate::text_match::lemma_process_marked_fragment;
use crate::text_match::lemma_process_quote_free_prefix;
use crate::text_match::lemma_quote_free_concat;

verus! {

/// The six query-method families: three prefixes, each singular or plural.
/// `get*` expects matches at once and throws on failure; `query*` reports
/// absence as a value; `find*` waits inside the injected library before
/// failing like `get*`.
#[derive(Debug, Clone, Copy, PartialEq, Eq, Structural)]
pub enum Method {
    /// Singular, throwing
    Get,
    /// Plural, throwing on zero matches
    GetAll,
    /// Singular, absent becomes none
    Query,
    /// Plural, zero matches is an empty collection
    QueryAll,
    /// Singular, waits before throwing
    Find,
    /// Plural, waits before throwing on zero matches
    FindAll,
}

impl Method {
    /// The method-name prefix for the injected library.
    pub open spec fn spec_prefix(self) -> Seq<char> {
        match self {
            Method::Get => "getBy"@,
            Method::GetAll => "getAllBy"@,
            Method::Query => "queryBy"@,
            Method::QueryAll => "queryAllBy"@,
            Method::Find => "findBy"@,
            Method::FindAll => "findAllBy"@,
        }
    }

    /// Whether the script wraps the call so a null result becomes an empty
    /// array: only the zero-or-one `query` family needs it, so the caller
    /// can tell zero from one without a special case for null.
    pub open spec fn spec_null_filter(self) -> bool {
        self is Query
    }

    /// The method-name prefix for the injected library.
    pub fn prefix(&self) -> (r: &'static str)
        ensures
            r@ == self.spec_prefix(),
    {
        match self {
            Method::Get => "getBy",
            Method::GetAll => "getAllBy",
            Method::Query => "queryBy",
            Method::QueryAll => "queryAllBy",
            Method::Find => "findBy",
            Method::FindAll => "findAllBy",
        }
    }

    /// Whether the rendered script filters out a null result.
    pub fn with_null_filter(&self) -> (r: bool)
        ensures
            r == self.spec_null_filter(),
    {
        match self {
            Method::Query => true,
            _ => false,
        }
    }
}

/// The complete script for one query: the inner call for the method and
/// selector, the one-shot configuration, the library-presence guard, and
/// the marker pass over the assembled text.
pub open spec fn spec_query_request_script(
    method: Method,
    selector: By,
    config: Option<configure::Options>,
    scoped: bool,
) -> Seq<char> {
    spec_process(
        spec_guard(
            spec_wrap_configure(
                spec_query_script(
                    method.spec_prefix() + selector.spec_function_suffix(),
                    spec_container(scoped),
                    selector.spec_value(),
                    match selector.spec_options() {
                        Some(o) => Some(o.spec_json_marked()),
                        None => None,
                    },
                    method.spec_null_filter(),
                ),
                config,
            ),
        ),
    )
}

/// Render the complete script for one query. A scoped query receives its
/// container element as the first script argument; an unscoped one queries
/// the whole document and takes no argument.
pub fn build_query_script(
    method: Method,
    selector: &By,
    config: &Option<configure::Options>,
    scoped: bool,
) -> (r: String)
    ensures
        r@ == spec_query_request_script(method, *selector, *config, scoped),
{
    let mut mn: Vec<char> = Vec::new();
    push_str_chars(&mut mn, method.prefix());
    push_str_chars(&mut mn, selector.function_suffix());
    let method_name = chars_to_string(&mn);
    let opts: Option<Vec<char>> = match selector.options() {
        Some(o) => Some(o.to_marked_chars()),
        None => None,
    };
    let opts_ref: Option<&Vec<char>> = match &opts {
        Some(o) => Some(o),
        None => None,
    };
    let inner = query_script_chars(
        method_name.as_str(),
        container_expr(scoped),
        selector.value(),
        opts_ref,
        method.with_null_filter(),
    );
    let full = guard_chars(wrap_configure_chars(inner, config));
    let processed = process_chars(&full);
    chars_to_string(&processed)
}

/// What the driver loop must do after one script execution.
#[derive(Debug, Clone, Copy, PartialEq, Eq, Structural)]
pub enum RecoveryAction {
    /// The result is final: hand it back.
    Accept,
    /// Inject the library source and run the same script once more.
    Reinject,
}

/// The library-recovery state: whether re-injection was already tried for
/// the query at hand.
#[derive(Debug, Clone, Copy, PartialEq, Eq, Structural)]
pub struct LibraryRecovery {
    /// Whether the one-time re-injection has been spent.
    pub injected: bool,
}

impl LibraryRecovery {
    /// One step of the protocol: a sentinel result triggers re-injection
    /// only while the single retry is unspent; everything else is final.
    pub open spec fn spec_step(self, result_is_sentinel: bool) -> (LibraryRecovery, RecoveryAction) {
        if result_is_sentinel && !self.injected {
            (LibraryRecovery { injected: true }, RecoveryAction::Reinject)
        } else {
            (self, RecoveryAction::Accept)
        }
    }

    /// A fresh protocol state, with the retry unspent.
    pub fn new() -> (r: Self)
        ensures
            !r.injected,
    {
        LibraryRecovery { injected: false }
    }

    /// Decide what to do with one script result.
    pub fn on_result(&mut self, result_is_sentinel: bool) -> (a: RecoveryAction)
        ensures
            (*final(self), a) == old(self).spec_step(result_is_sentinel),
    {
        if result_is_sentinel && !self.injected {
            self.injected = true;
            RecoveryAction::Reinject
        } else {
            RecoveryAction::Accept
        }
    }
}

/// When the library is absent on the first run, exactly one re-injection is
/// ordered, and the retry's outcome is accepted whatever it reports: the
/// value the caller receives is the retry's result.
pub proof fn lemma_exactly_one_recovery(retry_reports_sentinel: bool)
    ensures
        ({
            let s0 = LibraryRecovery { injected: false };
            let (s1, a1) = s0.spec_step(true);
            let (s2, a2) = s1.spec_step(retry_reports_sentinel);
            a1 == RecoveryAction::Reinject && a2 == RecoveryAction::Accept && s2.injected
        }),
{
}

/// Once the single re-injection is spent, every further result is final:
/// the protocol never loops.
pub proof fn lemma_recovery_never_repeats(s: LibraryRecovery, result_is_sentinel: bool)
    ensures
        s.injected ==> s.spec_step(result_is_sentinel) == (s, RecoveryAction::Accept),
{
}

/// Normalize a zero-or-one result list: an empty list is "none", otherwise
/// the first element is the answer.
pub fn normalize_query<E>(elements: Vec<E>) -> (r: Option<E>)
    ensures
        match r {
            None => elements@.len() == 0,
            Some(e) => elements@.len() > 0 && e == elements@[0],
        },
{
    let mut elements = elements;
    if elements.len() == 0 {
        None
    } else {
        Some(elements.remove(0))
    }
}

/// The complaint when the diagnostic call returns something other than a
/// string.
pub open spec fn spec_playground_error_message() -> Seq<char> {
    "logTestingPlaygroundURL returned non-string value"@
}

/// Normalize the diagnostic call's result: a string result is the URL,
/// anything else is an error naming the failure.
pub fn playground_url_result(value: Option<String>) -> (r: Result<String, String>)
    ensures
        match value {
            Some(s) => r matches Ok(u) && u == s,
            None => r matches Err(m) && m@ == spec_playground_error_message(),
        },
{
    match value {
        Some(s) => Ok(s),
        None => Err(String::from_str("logTestingPlaygroundURL returned non-string value")),
    }
}


/// In the rendered script of a regex-valued query without options or
/// configuration, the pattern stands bare between the call's comma and its
/// closing parenthesis: no quotes surround it and the marker is gone.
/// (A pattern holding a double quote would end the marker-tagged string
/// early and is outside this statement.)
#[verifier::rlimit(100)]
pub proof fn lemma_regex_value_bare_in_script(method: Method, selector: By, scoped: bool)
    requires
        selector.spec_options() is None,
        spec_is_regex_shape(selector.spec_value()),
        spec_quote_free(selector.spec_value()),
    ensures
        ({
            let head = "if (!window.__TL__) return 'Testing Library not found'; "@ + (
            if method.spec_null_filter() {
                "return ["@
            } else {
                "return "@
            }) + ("window.__TL__."@ + method.spec_prefix() + selector.spec_function_suffix()
                + "("@ + spec_container(scoped) + ", "@);
            let tail = ")"@ + (if method.spec_null_filter() {
                "].filter(n => n);"@
            } else {
                ";"@
            });
            spec_query_request_script(method, selector, None::<configure::Options>, scoped)
                == head + selector.spec_value() + tail
        }),
{
    let v = selector.spec_value();
    let g = "if (!window.__TL__) return 'Testing Library not found'; "@;
    let f1 = if method.spec_null_filter() {
        "return ["@
    } else {
        "return "@
    };
    let f2 = if method.spec_null_filter() {
        "].filter(n => n);"@
    } else {
        ";"@
    };
    let c1 = "window.__TL__."@ + method.spec_prefix() + selector.spec_function_suffix() + "("@
        + spec_container(scoped) + ", "@;
    let head = g + f1 + c1;
    let tail = ")"@ + f2;
    assert(spec_quote_free(g)) by {
        reveal_strlit("if (!window.__TL__) return 'Testing Library not found'; ");
    }
    assert(spec_quote_free(f1)) by {
        reveal_strlit("return [");
        reveal_strlit("return ");
    }
    assert(spec_quote_free("window.__TL__."@)) by {
        reveal_strlit("window.__TL__.");
    }
    assert(spec_quote_free(method.spec_prefix())) by {
        reveal_strlit("getBy");
        reveal_strlit("getAllBy");
        reveal_strlit("queryBy");
        reveal_strlit("queryAllBy");
        reveal_strlit("findBy");
        reveal_strlit("findAllBy");
    }
    assert(spec_quote_free(selector.spec_function_suffix())) by {
        reveal_strlit("Role");
        reveal_strlit("Text");
        reveal_strlit("LabelText");
        reveal_strlit("PlaceholderText");
        reveal_strlit("DisplayValue");
        reveal_strlit("AltText");
        reveal_strlit("Title");
        reveal_strlit("TestId");
    }
    assert(spec_quote_free("("@)) by {
        reveal_strlit("(");
    }
    assert(spec_quote_free(spec_container(scoped))) by {
        reveal_strlit("arguments[0]");
        reveal_strlit("document");
    }
    assert(spec_quote_free(", "@)) by {
        reveal_strlit(", ");
    }
    assert(spec_quote_free(")"@)) by {
        reveal_strlit(")");
    }
    assert(spec_quote_free(f2)) by {
        reveal_strlit("].filter(n => n);");
        reveal_strlit(";");
    }
    lemma_quote_free_concat("window.__TL__."@, method.spec_prefix());
    lemma_quote_free_concat("window.__TL__."@ + method.spec_prefix(),
        selector.spec_function_suffix());
    lemma_quote_free_concat(
        "window.__TL__."@ + method.spec_prefix() + selector.spec_function_suffix(), "("@);
    lemma_quote_free_concat(
        "window.__TL__."@ + method.spec_prefix() + selector.spec_function_suffix() + "("@,
        spec_container(scoped));
    lemma_quote_free_concat(
        "window.__TL__."@ + method.spec_prefix() + selector.spec_function_suffix() + "("@
            + spec_container(scoped), ", "@);
    lemma_quote_free_concat(g, f1);
    lemma_quote_free_concat(g + f1, c1);
    assert(spec_quote_free(head));
    lemma_quote_free_concat(")"@, f2);
    assert(spec_quote_free(tail));
    let marked_and_tail = seq!['"'] + spec_marker() + v + seq!['"'] + tail;
    let inner = spec_query_script(
        method.spec_prefix() + selector.spec_function_suffix(),
        spec_container(scoped),
        v,
        None,
        method.spec_null_filter(),
    );
    assert(spec_format_query_value(v) == seq!['"'] + spec_marker() + v + seq!['"']);
    assert(spec_guard(inner) =~= head + marked_and_tail);
    assert(spec_wrap_configure(inner, None::<configure::Options>) == inner);
    lemma_process_quote_free_prefix(head, marked_and_tail);
    lemma_process_marked_fragment(v, tail);
    lemma_process_quote_free_prefix(tail, Seq::empty());
    assert(tail + Seq::<char>::empty() =~= tail);
    assert(spec_process(Seq::<char>::empty()) == Seq::<char>::empty());
    assert(spec_process(tail) =~= tail);
    assert(spec_query_request_script(method, selector, None::<configure::Options>, scoped)
        == spec_process(spec_guard(inner)));
    assert(spec_process(spec_guard(inner)) == spec_process(head + marked_and_tail));
    assert(spec_process(head + marked_and_tail) == head + (v + spec_process(tail)));
    assert(head + (v + spec_process(tail)) =~= head + v + tail);
}

} // verus!
