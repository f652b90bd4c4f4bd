//! The script builder: renders one executable script string for the
//! injected library from a method name, a container expression, the match
//! value, the serialized options, and the flags of the query family.
//!
//! Rendering is deterministic: for fixed inputs the script text is the same,
//! character for character, every time.

use vstd::prelude::*;
use crate::strutil::chars_to_string;
use crate::strutil::push_chars;
use crate::strutil::push_str_chars;
use crate::strutil::str_eq;
use crate::text_match::is_regex_pattern;
use crate::text_match::spec_is_regex_shape;
use crate::text_match::spec_marker;
use crate::text_match::spec_process;
use crate::text_match::spec_quote_free;
use crate::text_match::lemma_process_marked_fragment;

verus! {

/// The reserved string the guard clause returns when the injected library's
/// namespace is absent. A real query can never produce it.
pub open spec fn spec_sentinel() -> Seq<char> {
    "Testing Library not found"@
}

/// The reserved library-absent sentinel.
pub fn library_not_found_sentinel() -> (r: &'static str)
    ensures
        r@ == spec_sentinel(),
{
    "Testing Library not found"
}

/// Whether a script result is exactly the library-absent sentinel.
pub fn is_library_not_found(s: &str) -> (r: bool)
    ensures
        r == (s@ == spec_sentinel()),
{
    str_eq(s, "Testing Library not found")
}

/// The container expression: a scoped query runs against the element passed
/// as the first script argument, an unscoped one against the whole document.
pub open spec fn spec_container(scoped: bool) -> Seq<char> {
    if scoped {
        "arguments[0]"@
    } else {
        "document"@
    }
}

/// The container expression for a scoped or unscoped query.
pub fn container_expr(scoped: bool) -> (r: &'static str)
    ensures
        r@ == spec_container(scoped),
{
    if scoped {
        "arguments[0]"
    } else {
        "document"
    }
}

/// How the match value appears in the script: a regex-shaped value becomes a
/// marker-tagged double-quoted string (rewritten to the bare pattern by the
/// marker pass), any other value an ordinary single-quoted string.
pub open spec fn spec_format_query_value(v: Seq<char>) -> Seq<char> {
    if spec_is_regex_shape(v) {
        seq!['"'] + spec_marker() + v + seq!['"']
    } else {
        seq!['\''] + v + seq!['\'']
    }
}

/// Append the formatted match value to `out`.
pub fn push_format_query_value(out: &mut Vec<char>, value: &str)
    ensures
        final(out)@ == old(out)@ + spec_format_query_value(value@),
{
    if is_regex_pattern(value) {
        out.push('"');
        push_str_chars(out, "__RAW_JS__");
        push_str_chars(out, value);
        out.push('"');
        proof {
            assert(out@ =~= old(out)@ + spec_format_query_value(value@));
        }
    } else {
        out.push('\'');
        push_str_chars(out, value);
        out.push('\'');
        proof {
            assert(out@ =~= old(out)@ + spec_format_query_value(value@));
        }
    }
}

/// Format a query value, detecting regex patterns.
pub fn format_query_value(value: &str) -> (r: String)
    ensures
        r@ == spec_format_query_value(value@),
{
    let mut out: Vec<char> = Vec::new();
    push_format_query_value(&mut out, value);
    chars_to_string(&out)
}

/// The inner query script, before configuration, guard and marker pass: the
/// call expression, wrapped so that a null result becomes an empty array
/// when the null filter is requested.
pub open spec fn spec_query_script(
    method_name: Seq<char>,
    container: Seq<char>,
    value: Seq<char>,
    options: Option<Seq<char>>,
    with_null_filter: bool,
) -> Seq<char> {
    let call = "window.__TL__."@ + method_name + "("@ + container + ", "@
        + spec_format_query_value(value) + (match options {
        Some(o) => ", "@ + o,
        None => Seq::empty(),
    }) + ")"@;
    if with_null_filter {
        "return ["@ + call + "].filter(n => n);"@
    } else {
        "return "@ + call + ";"@
    }
}

/// Render the inner query script.
pub fn query_script_chars(
    method_name: &str,
    container: &str,
    value: &str,
    options_marked: Option<&Vec<char>>,
    with_null_filter: bool,
) -> (r: Vec<char>)
    ensures
        r@ == spec_query_script(
            method_name@,
            container@,
            value@,
            match options_marked {
                Some(o) => Some(o@),
                None => None,
            },
            with_null_filter,
        ),
{
    let mut call: Vec<char> = Vec::new();
    push_str_chars(&mut call, "window.__TL__.");
    push_str_chars(&mut call, method_name);
    push_str_chars(&mut call, "(");
    push_str_chars(&mut call, container);
    push_str_chars(&mut call, ", ");
    push_format_query_value(&mut call, value);
    if let Some(o) = options_marked {
        push_str_chars(&mut call, ", ");
        push_chars(&mut call, o);
    }
    push_str_chars(&mut call, ")");
    let mut out: Vec<char> = Vec::new();
    if with_null_filter {
        push_str_chars(&mut out, "return [");
        push_chars(&mut out, &call);
        push_str_chars(&mut out, "].filter(n => n);");
    } else {
        push_str_chars(&mut out, "return ");
        push_chars(&mut out, &call);
        push_str_chars(&mut out, ";");
    }
    proof {
        assert(out@ =~= spec_query_script(
            method_name@,
            container@,
            value@,
            match options_marked {
                Some(o) => Some(o@),
                None => None,
            },
            with_null_filter,
        ));
    }
    out
}

/// When a configuration is attached, a one-shot `configure` call is applied
/// before the query on every execution: the library's configuration is
/// transient per script evaluation, not persisted browser state.
pub open spec fn spec_wrap_configure(
    script: Seq<char>,
    config: Option<crate::configure::Options>,
) -> Seq<char> {
    match config {
        Some(c) => "window.__TL__.configure("@ + c.spec_json() + "); "@ + script,
        None => script,
    }
}

/// Prepend the one-shot configuration call, if a configuration is attached.
pub fn wrap_configure_chars(script: Vec<char>, config: &Option<crate::configure::Options>) -> (r:
    Vec<char>)
    ensures
        r@ == spec_wrap_configure(script@, *config),
{
    match config {
        Some(c) => {
            let mut out: Vec<char> = Vec::new();
            push_str_chars(&mut out, "window.__TL__.configure(");
            let cj = c.to_chars();
            push_chars(&mut out, &cj);
            push_str_chars(&mut out, "); ");
            push_chars(&mut out, &script);
            proof {
                assert(out@ =~= spec_wrap_configure(script@, *config));
            }
            out
        },
        None => script,
    }
}

/// The guard prefix: when the injected library's namespace is missing, the
/// script short-circuits and returns the reserved sentinel instead of
/// running the query.
pub open spec fn spec_guard(script: Seq<char>) -> Seq<char> {
    "if (!window.__TL__) return 'Testing Library not found'; "@ + script
}

/// Prepend the library-presence guard.
pub fn guard_chars(script: Vec<char>) -> (r: Vec<char>)
    ensures
        r@ == spec_guard(script@),
{
    let mut out: Vec<char> = Vec::new();
    push_str_chars(&mut out, "if (!window.__TL__) return 'Testing Library not found'; ");
    push_chars(&mut out, &script);
    out
}

/// The string the guard returns on a missing library is exactly the
/// sentinel the dispatcher tests for.
pub proof fn lemma_guard_carries_sentinel(script: Seq<char>)
    ensures
        spec_guard(script) == "if (!window.__TL__) return '"@ + spec_sentinel() + "'; "@
            + script,
{
    reveal_strlit("if (!window.__TL__) return 'Testing Library not found'; ");
    reveal_strlit("if (!window.__TL__) return '");
    reveal_strlit("Testing Library not found");
    reveal_strlit("'; ");
    assert(spec_guard(script) =~= "if (!window.__TL__) return '"@ + spec_sentinel() + "'; "@
        + script);
}

/// The diagnostic script that asks the injected library for a testing
/// playground URL, for the whole document or for the element passed as the
/// first script argument.
pub open spec fn spec_playground_call(scoped: bool) -> Seq<char> {
    if scoped {
        "return window.__TL__.logTestingPlaygroundURL(arguments[0]);"@
    } else {
        "return window.__TL__.logTestingPlaygroundURL();"@
    }
}

/// The diagnostic playground call, with configuration and guard applied.
pub open spec fn spec_playground_script(
    scoped: bool,
    config: Option<crate::configure::Options>,
) -> Seq<char> {
    spec_guard(spec_wrap_configure(spec_playground_call(scoped), config))
}

/// Render the diagnostic playground script.
pub fn playground_script(scoped: bool, config: &Option<crate::configure::Options>) -> (r: String)
    ensures
        r@ == spec_playground_script(scoped, *config),
{
    let mut call: Vec<char> = Vec::new();
    if scoped {
        push_str_chars(&mut call, "return window.__TL__.logTestingPlaygroundURL(arguments[0]);");
    } else {
        push_str_chars(&mut call, "return window.__TL__.logTestingPlaygroundURL();");
    }
    let wrapped = guard_chars(wrap_configure_chars(call, config));
    chars_to_string(&wrapped)
}


/// How a match value reaches the final script: a regex-shaped value without
/// double quotes survives the marker pass as the bare, unquoted pattern;
/// any other value is rendered as an ordinary single-quoted string.
pub proof fn lemma_format_query_value_renders(v: Seq<char>)
    ensures
        spec_is_regex_shape(v) && spec_quote_free(v) ==> spec_process(
            spec_format_query_value(v),
        ) == v,
        !spec_is_regex_shape(v) ==> spec_format_query_value(v) == seq!['\''] + v + seq!['\''],
{
    if spec_is_regex_shape(v) && spec_quote_free(v) {
        assert(spec_format_query_value(v) =~= seq!['"'] + spec_marker() + v + seq!['"']
            + Seq::<char>::empty());
        lemma_process_marked_fragment(v, Seq::empty());
        assert(spec_process(Seq::<char>::empty()) == Seq::<char>::empty());
        assert(v + Seq::<char>::empty() =~= v);
    }
}

} // verus!
