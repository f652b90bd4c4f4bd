//! Text matching values for queries.
//!
//! A query value is either ordinary text (matched exactly or as a substring)
//! or a regular-expression literal written `/pattern/flags`. Ordinary text is
//! serialized as a JSON string; a regex must reach the generated script
//! unquoted, as a native regex literal. Because the serialized form is built
//! as JSON, a regex is first serialized as a string tagged with an internal
//! marker, and a post-processing pass over the finished script rewrites every
//! marker-tagged string to the bare pattern text.

use vstd::prelude::*;
use vstd::string::StrSliceExecFns;
use vstd::string::StringExecFns;
use crate::json::spec_json_string;
use crate::json::push_json_string;
use crate::strutil::chars_of_str;
use crate::strutil::chars_to_string;
use crate::strutil::push_str_chars;

verus! {

/// The internal marker that tags a serialized string as raw script text.
pub open spec fn spec_marker() -> Seq<char> {
    "__RAW_JS__"@
}

/// The regex-literal shape `/pattern/flags`: a leading slash, more than two
/// characters in all, and another slash somewhere after the first.
pub open spec fn spec_is_regex_shape(s: Seq<char>) -> bool {
    s.len() > 2 && s[0] == '/' && (exists|i: int| 1 <= i < s.len() && s[i] == '/')
}

/// Decide whether `value` has the regex-literal shape `/pattern/flags`.
pub fn is_regex_pattern(value: &str) -> (r: bool)
    ensures
        r == spec_is_regex_shape(value@),
{
    let n = value.unicode_len();
    if n <= 2 {
        return false;
    }
    if value.get_char(0) != '/' {
        return false;
    }
    let mut i: usize = 1;
    while i < n
        invariant
            1 <= i <= n,
            2 < n,
            n == value@.len(),
            value@[0] == '/',
            forall|j: int| 1 <= j < i ==> value@[j] != '/',
        decreases n - i,
    {
        if value.get_char(i) == '/' {
            proof {
                assert(exists|j: int| 1 <= j < value@.len() && value@[j] == '/') by {
                    assert(value@[i as int] == '/');
                }
            }
            return true;
        }
        i += 1;
    }
    false
}

/// A string that must be emitted into the generated script verbatim, outside
/// of any string quoting. It serializes as a JSON string whose body carries
/// the internal marker, to be rewritten by the post-processing pass.
#[derive(Debug, Clone)]
pub struct RawJavaScript(pub String);

impl RawJavaScript {
    /// The marked serialized form: a JSON string literal whose body is the
    /// marker followed by the raw text.
    pub open spec fn spec_marked(self) -> Seq<char> {
        spec_json_string(spec_marker() + self.0@)
    }

    /// Append the marked serialized form to `out`.
    pub fn push_marked(&self, out: &mut Vec<char>)
        ensures
            final(out)@ == old(out)@ + self.spec_marked(),
    {
        let mut body: Vec<char> = Vec::new();
        push_str_chars(&mut body, "__RAW_JS__");
        push_str_chars(&mut body, self.0.as_str());
        push_json_string(out, &body);
    }
}

/// A text-matching value: exact text, substring text, or a regex literal.
#[derive(Debug, Clone)]
pub enum TextMatch {
    /// Exact string match
    Exact(String),
    /// Substring match
    Substring(String),
    /// Regular expression match, written `/pattern/flags`
    Regex(String),
}

impl TextMatch {
    /// The text carried by the value: the literal text, or the full
    /// `/pattern/flags` source of a regex.
    pub open spec fn spec_text(self) -> Seq<char> {
        match self {
            TextMatch::Exact(s) => s@,
            TextMatch::Substring(s) => s@,
            TextMatch::Regex(p) => p@,
        }
    }

    /// The serialized form used inside option objects: a JSON string, whose
    /// body is marker-tagged for a regex.
    pub open spec fn spec_serialized(self) -> Seq<char> {
        match self {
            TextMatch::Exact(s) => spec_json_string(s@),
            TextMatch::Substring(s) => spec_json_string(s@),
            TextMatch::Regex(p) => spec_json_string(spec_marker() + p@),
        }
    }

    /// Classify `text`: values with the regex-literal shape become `Regex`,
    /// everything else `Exact`.
    pub fn from(text: &str) -> (r: TextMatch)
        ensures
            spec_is_regex_shape(text@) ==> r is Regex,
            !spec_is_regex_shape(text@) ==> r is Exact,
            r.spec_text() == text@,
    {
        if is_regex_pattern(text) {
            TextMatch::Regex(String::from_str(text))
        } else {
            TextMatch::Exact(String::from_str(text))
        }
    }

    /// The text value carried by this match.
    pub fn text_value(&self) -> (r: &str)
        ensures
            r@ == self.spec_text(),
    {
        match self {
            TextMatch::Exact(text) => text.as_str(),
            TextMatch::Substring(text) => text.as_str(),
            TextMatch::Regex(pattern) => pattern.as_str(),
        }
    }

    /// Whether this is an exact match.
    pub fn is_exact(&self) -> (r: bool)
        ensures
            r == (self is Exact),
    {
        match self {
            TextMatch::Exact(_) => true,
            _ => false,
        }
    }

    /// Whether this is a regex match.
    pub fn is_regex(&self) -> (r: bool)
        ensures
            r == (self is Regex),
    {
        match self {
            TextMatch::Regex(_) => true,
            _ => false,
        }
    }

    /// Append the serialized form to `out`.
    pub fn push_serialized(&self, out: &mut Vec<char>)
        ensures
            final(out)@ == old(out)@ + self.spec_serialized(),
    {
        match self {
            TextMatch::Exact(s) => {
                let body = chars_of_str(s.as_str());
                push_json_string(out, &body);
            },
            TextMatch::Substring(s) => {
                let body = chars_of_str(s.as_str());
                push_json_string(out, &body);
            },
            TextMatch::Regex(p) => {
                let raw = RawJavaScript(p.clone());
                raw.push_marked(out);
            },
        }
    }
}

/// The complaint raised for a regex pattern that does not open with a slash.
pub open spec fn spec_msg_regex_start() -> Seq<char> {
    "Regex pattern must start with '/' (e.g., '/pattern/' or '/pattern/i')"@
}

/// The complaint raised for a regex pattern with no closing slash.
pub open spec fn spec_msg_regex_close() -> Seq<char> {
    "Regex pattern must contain at least one '/' after the pattern (e.g., '/pattern/')"@
}

/// What compiling a pattern with the regex engine settles on: `None` when
/// the pattern is accepted, and the engine's rendered parse error otherwise.
/// The outcome depends on the pattern alone.
pub uninterp spec fn regex_parse_error(pattern: Seq<char>) -> Option<Seq<char>>;

/// Relies on `regex::Regex::new`: compiling a pattern is deterministic in the
/// pattern; it returns a compiled regex or a parse error whose rendering is
/// returned here.
#[verifier::external_body]
fn compile_regex_error(pattern: &str) -> (r: Option<String>)
    ensures
        r is None <==> regex_parse_error(pattern@) is None,
        r matches Some(e) ==> regex_parse_error(pattern@) matches Some(m) && e@ == m,
{
    match regex::Regex::new(pattern) {
        Ok(_) => None,
        Err(e) => Some(e.to_string()),
    }
}

/// The problem a regex-tagged value has, if any: the shape complaints, or
/// the regex engine's parse error for the text between the slashes, prefixed
/// with a short context.
pub open spec fn spec_regex_problem(p: Seq<char>) -> Option<Seq<char>> {
    if p.len() == 0 || p[0] != '/' {
        Some(spec_msg_regex_start())
    } else if p.index_of_last('/') == Some(0int) {
        Some(spec_msg_regex_close())
    } else {
        match p.index_of_last('/') {
            Some(last) => match regex_parse_error(p.subrange(1, last)) {
                Some(e) => Some("Invalid regex pattern: "@ + e),
                None => None,
            },
            None => Some(spec_msg_regex_close()),
        }
    }
}

impl TextMatch {
    /// Check that a regex-tagged value is a well-formed `/pattern/flags`
    /// literal whose inner pattern the regex engine accepts. Values that are
    /// not regex-tagged are always valid.
    pub fn validate_regex(&self) -> (r: Result<(), String>)
        ensures
            match self {
                TextMatch::Regex(p) => match spec_regex_problem(p@) {
                    None => r is Ok,
                    Some(m) => r matches Err(e) && e@ == m,
                },
                _ => r is Ok,
            },
    {
        let pattern: &String = match self {
            TextMatch::Regex(p) => p,
            _ => {
                return Ok(());
            },
        };
        let ps = pattern.as_str();
        let n = ps.unicode_len();
        if n == 0 || ps.get_char(0) != '/' {
            return Err(String::from_str(
                "Regex pattern must start with '/' (e.g., '/pattern/' or '/pattern/i')",
            ));
        }
        let mut k: usize = n;
        let mut last: usize = 0;
        while k > 1
            invariant_except_break
                1 <= k <= n,
                n == ps@.len(),
                last == 0,
                forall|j: int| k <= j < n ==> ps@[j] != '/',
            ensures
                0 <= last < n,
                last >= 1 ==> ps@[last as int] == '/',
                forall|j: int| if last >= 1 { last < j < n } else { 1 <= j < n } ==> ps@[j]
                    != '/',
            decreases k,
        {
            k -= 1;
            if ps.get_char(k) == '/' {
                last = k;
                break;
            }
        }
        proof {
            ps@.index_of_last_ensures('/');
            if last == 0 {
                assert(ps@[0] == '/');
                assert(ps@.contains('/'));
                match ps@.index_of_last('/') {
                    Some(idx) => {
                        assert(idx == 0) by {
                            if idx != 0 {
                                assert(ps@[idx] != '/');
                            }
                        }
                    },
                    None => {
                        assert(false);
                    },
                }
            } else {
                assert(ps@.contains('/')) by {
                    assert(ps@[last as int] == '/');
                }
                match ps@.index_of_last('/') {
                    Some(idx) => {
                        assert(idx == last) by {
                            if idx > last {
                                assert(ps@[idx] != '/');
                            }
                            if idx < last {
                                assert(ps@[last as int] != '/');
                            }
                        }
                    },
                    None => {
                        assert(false);
                    },
                }
            }
        }
        if last == 0 {
            return Err(String::from_str(
                "Regex pattern must contain at least one '/' after the pattern (e.g., '/pattern/')",
            ));
        }
        let inner = ps.substring_char(1, last);
        match compile_regex_error(inner) {
            None => Ok(()),
            Some(e) => {
                let mut msg = String::from_str("Invalid regex pattern: ");
                msg.append(e.as_str());
                Err(msg)
            },
        }
    }
}

/// The least index holding a double quote, if any.
pub open spec fn spec_find_quote(s: Seq<char>) -> Option<int>
    decreases s.len(),
{
    if s.len() == 0 {
        None
    } else if s[0] == '"' {
        Some(0int)
    } else {
        match spec_find_quote(s.drop_first()) {
            Some(j) => Some(j + 1),
            None => None,
        }
    }
}

pub proof fn lemma_find_quote_at(s: Seq<char>, j: int)
    requires
        0 <= j < s.len(),
        s[j] == '"',
        forall|u: int| 0 <= u < j ==> s[u] != '"',
    ensures
        spec_find_quote(s) == Some(j),
    decreases s.len(),
{
    if s[0] == '"' {
        assert(j == 0) by {
            if j > 0 {
                assert(s[0] != '"');
            }
        }
    } else {
        assert(j >= 1);
        assert(forall|u: int| 0 <= u < j - 1 ==> s.drop_first()[u] != '"');
        lemma_find_quote_at(s.drop_first(), j - 1);
    }
}

pub proof fn lemma_find_quote_none(s: Seq<char>)
    requires
        forall|u: int| 0 <= u < s.len() ==> s[u] != '"',
    ensures
        spec_find_quote(s) is None,
    decreases s.len(),
{
    if s.len() > 0 {
        lemma_find_quote_none(s.drop_first());
    }
}

/// Whether a marker-tagged string starts at the head of `s`: an opening
/// quote, the marker, at least one further character, and a closing quote.
pub open spec fn spec_marker_head(s: Seq<char>) -> bool {
    &&& s.len() > 12
    &&& s[0] == '"'
    &&& s.subrange(1, 11) == spec_marker()
    &&& match spec_find_quote(s.skip(11)) {
        Some(j) => 1 <= j && 11 + j + 1 <= s.len(),
        None => false,
    }
}

/// The marker post-processing pass: scanning left to right, every occurrence
/// of a quoted, marker-prefixed, non-empty string is replaced by its bare
/// text, with the quotes and the marker dropped; everything else is copied.
pub open spec fn spec_process(s: Seq<char>) -> Seq<char>
    decreases s.len(),
{
    if s.len() == 0 {
        Seq::empty()
    } else if spec_marker_head(s) {
        match spec_find_quote(s.skip(11)) {
            Some(j) => s.subrange(11, 11 + j) + spec_process(s.skip(11 + j + 1)),
            None => Seq::empty(),
        }
    } else {
        seq![s[0]] + spec_process(s.drop_first())
    }
}

/// Whether `s` holds the start of a marker-tagged string anywhere: a quote
/// immediately followed by the marker.
pub open spec fn spec_has_marker_start(s: Seq<char>) -> bool {
    exists|i: int|
        0 <= i && i + 11 <= s.len() && #[trigger] s.subrange(i, i + 11) == seq!['"']
            + spec_marker()
}

/// A text shorter than a quote and the marker cannot hold a marker start.
pub proof fn lemma_marker_start_needs_len(s: Seq<char>)
    requires
        s.len() < 11,
    ensures
        !spec_has_marker_start(s),
{
    if spec_has_marker_start(s) {
        let i = choose|i: int|
            0 <= i && i + 11 <= s.len() && #[trigger] s.subrange(i, i + 11) == seq!['"']
                + spec_marker();
        assert(false);
    }
}

/// The post-processing pass leaves a text without marker-tagged strings
/// unchanged.
pub proof fn lemma_process_no_markers(s: Seq<char>)
    requires
        !spec_has_marker_start(s),
    ensures
        spec_process(s) == s,
    decreases s.len(),
{
    if s.len() == 0 {
        assert(spec_process(s) =~= s);
    } else {
        if spec_marker_head(s) {
            assert(s.subrange(0, 11) =~= seq!['"'] + spec_marker());
            assert(spec_has_marker_start(s));
            assert(false);
        }
        assert(!spec_has_marker_start(s.drop_first())) by {
            if spec_has_marker_start(s.drop_first()) {
                let i = choose|i: int|
                    0 <= i && i + 11 <= s.drop_first().len() && #[trigger] s.drop_first()
                        .subrange(i, i + 11) == seq!['"'] + spec_marker();
                assert(s.subrange(i + 1, (i + 1) + 11) =~= s.drop_first().subrange(i, i + 11));
                assert(0 <= i + 1 && (i + 1) + 11 <= s.len() && s.subrange(i + 1, (i + 1) + 11)
                    == seq!['"'] + spec_marker());
                assert(spec_has_marker_start(s));
            }
        }
        lemma_process_no_markers(s.drop_first());
        assert(spec_process(s) =~= s);
    }
}

/// Append `v[from..to]` to `out`.
fn push_range(out: &mut Vec<char>, v: &Vec<char>, from: usize, to: usize)
    requires
        from <= to <= v@.len(),
    ensures
        final(out)@ == old(out)@ + v@.subrange(from as int, to as int),
{
    let mut t: usize = from;
    while t < to
        invariant
            from <= t <= to <= v@.len(),
            out@ == old(out)@ + v@.subrange(from as int, t as int),
        decreases to - t,
    {
        out.push(v[t]);
        proof {
            assert(v@.subrange(from as int, t + 1) =~= v@.subrange(from as int, t as int).push(
                v@[t as int]));
        }
        t += 1;
    }
}

/// Whether the ten marker characters stand at `start`.
fn marker_prefix_at(v: &Vec<char>, start: usize) -> (r: bool)
    requires
        start + 10 <= v@.len(),
    ensures
        r == (v@.subrange(start as int, start as int + 10) == spec_marker()),
{
    let m = "__RAW_JS__";
    proof {
        reveal_strlit("__RAW_JS__");
    }
    let n = v.len();
    let mut t: usize = 0;
    while t < 10
        invariant
            t <= 10,
            n == v@.len(),
            start + 10 <= n,
            m@ == spec_marker(),
            m@.len() == 10,
            forall|u: int| 0 <= u < t ==> v@[start + u] == spec_marker()[u],
        decreases 10 - t,
    {
        if v[start + t] != m.get_char(t) {
            proof {
                assert(v@.subrange(start as int, start as int + 10)[t as int] == v@[start + t]);
            }
            return false;
        }
        t += 1;
    }
    proof {
        assert(v@.subrange(start as int, start as int + 10) =~= spec_marker());
    }
    true
}

/// Find a marker-tagged string starting at `i`: on success, the index of its
/// closing quote; and relate the outcome to one unfolding of the
/// post-processing pass at `i`.
fn marker_head_end(v: &Vec<char>, i: usize) -> (r: Option<usize>)
    requires
        i < v@.len(),
    ensures
        match r {
            Some(k) => {
                &&& i + 12 <= k < v@.len()
                &&& spec_process(v@.skip(i as int)) == v@.subrange(i + 11, k as int)
                    + spec_process(v@.skip(k + 1))
            },
            None => spec_process(v@.skip(i as int)) == seq![v@[i as int]] + spec_process(
                v@.skip(i + 1),
            ),
        },
{
    let ghost s = v@.skip(i as int);
    proof {
        assert(s[0] == v@[i as int]);
        assert(s.drop_first() =~= v@.skip(i + 1));
    }
    let n = v.len();
    if !(n - i >= 13 && v[i] == '"') {
        proof {
            if spec_marker_head(s) {
                assert(s.len() > 12);
                match spec_find_quote(s.skip(11)) {
                    Some(j) => {
                        assert(13 <= 11 + j + 1 <= s.len());
                    },
                    None => {},
                }
                assert(n - i >= 13 && v@[i as int] == '"');
            }
            assert(!spec_marker_head(s));
        }
        return None;
    }
    if !marker_prefix_at(v, i + 1) {
        proof {
            assert(s.subrange(1, 11) =~= v@.subrange(i + 1, i + 1 + 10));
            assert(!spec_marker_head(s));
        }
        return None;
    }
    proof {
        assert(s.subrange(1, 11) =~= v@.subrange(i + 1, i + 1 + 10));
        assert(s.skip(11) =~= v@.skip(i + 11));
    }
    let mut k: usize = i + 11;
    while k < n
        invariant
            i + 11 <= k <= n,
            n == v@.len(),
            forall|u: int| i + 11 <= u < k ==> v@[u] != '"',
        ensures
            i + 11 <= k <= n,
            forall|u: int| i + 11 <= u < k ==> v@[u] != '"',
            k < n ==> v@[k as int] == '"',
        decreases n - k,
    {
        if v[k] == '"' {
            break;
        }
        k += 1;
    }
    if k == n {
        proof {
            assert(forall|u: int|
                0 <= u < s.skip(11).len() ==> s.skip(11)[u] == v@[i + 11 + u] && s.skip(11)[u]
                    != '"');
            lemma_find_quote_none(s.skip(11));
            assert(!spec_marker_head(s));
        }
        return None;
    }
    proof {
        let jj = k - (i + 11) as int;
        assert(s.skip(11)[jj] == v@[k as int]);
        assert(forall|u: int| 0 <= u < jj ==> s.skip(11)[u] == v@[i + 11 + u]);
        lemma_find_quote_at(s.skip(11), jj);
    }
    if k == i + 11 {
        proof {
            assert(spec_find_quote(s.skip(11)) == Some(0int));
            assert(!spec_marker_head(s));
        }
        return None;
    }
    proof {
        let jj = k - (i + 11) as int;
        assert(spec_find_quote(s.skip(11)) == Some(jj));
        assert(1 <= jj && 11 + jj + 1 <= s.len());
        assert(spec_marker_head(s));
        assert(s.subrange(11, 11 + jj) =~= v@.subrange(i + 11, k as int));
        assert(s.skip(11 + jj + 1) =~= v@.skip(k + 1));
        assert(spec_process(s) == s.subrange(11, 11 + jj) + spec_process(s.skip(11 + jj + 1)));
    }
    Some(k)
}

/// Run the marker post-processing pass over `v`.
pub fn process_chars(v: &Vec<char>) -> (out: Vec<char>)
    ensures
        out@ == spec_process(v@),
{
    let n = v.len();
    let mut out: Vec<char> = Vec::new();
    let mut i: usize = 0;
    proof {
        assert(v@.skip(0) =~= v@);
    }
    while i < n
        invariant
            i <= n,
            n == v@.len(),
            out@ + spec_process(v@.skip(i as int)) == spec_process(v@),
        decreases n - i,
    {
        let ghost out0 = out@;
        match marker_head_end(v, i) {
            Some(k) => {
                push_range(&mut out, v, i + 11, k);
                proof {
                    assert(out@ + spec_process(v@.skip(k + 1)) =~= out0 + (v@.subrange(
                        i + 11,
                        k as int,
                    ) + spec_process(v@.skip(k + 1))));
                }
                i = k + 1;
            },
            None => {
                out.push(v[i]);
                proof {
                    assert(out@ + spec_process(v@.skip(i + 1)) =~= out0 + (seq![v@[i as int]]
                        + spec_process(v@.skip(i + 1))));
                }
                i += 1;
            },
        }
    }
    proof {
        assert(v@.skip(n as int) =~= Seq::<char>::empty());
        assert(spec_process(Seq::<char>::empty()) == Seq::<char>::empty());
        assert(out@ =~= spec_process(v@));
    }
    out
}

/// Rewrite every marker-tagged string in `json` to its bare text.
pub fn process_raw_javascript_markers(json: &str) -> (r: String)
    ensures
        r@ == spec_process(json@),
{
    let v = chars_of_str(json);
    let out = process_chars(&v);
    chars_to_string(&out)
}


/// Whether `s` holds no double quote at all. Such a text can neither open
/// nor close a marker-tagged string.
pub open spec fn spec_quote_free(s: Seq<char>) -> bool {
    forall|i: int| 0 <= i < s.len() ==> s[i] != '"'
}

pub proof fn lemma_quote_free_concat(a: Seq<char>, b: Seq<char>)
    ensures
        spec_quote_free(a + b) == (spec_quote_free(a) && spec_quote_free(b)),
{
    if spec_quote_free(a + b) {
        assert forall|i: int| 0 <= i < a.len() implies a[i] != '"' by {
            assert((a + b)[i] == a[i]);
        }
        assert forall|i: int| 0 <= i < b.len() implies b[i] != '"' by {
            assert((a + b)[a.len() + i] == b[i]);
        }
    }
    if spec_quote_free(a) && spec_quote_free(b) {
        assert forall|i: int| 0 <= i < (a + b).len() implies (a + b)[i] != '"' by {
            if i < a.len() {
                assert((a + b)[i] == a[i]);
            } else {
                assert((a + b)[i] == b[i - a.len()]);
            }
        }
    }
}

/// The marker pass copies a quote-free prefix unchanged and continues with
/// the rest.
pub proof fn lemma_process_quote_free_prefix(a: Seq<char>, rest: Seq<char>)
    requires
        spec_quote_free(a),
    ensures
        spec_process(a + rest) == a + spec_process(rest),
    decreases a.len(),
{
    if a.len() == 0 {
        assert(a + rest =~= rest);
        assert(a + spec_process(rest) =~= spec_process(rest));
    } else {
        let s = a + rest;
        assert(s[0] == a[0]);
        assert(a[0] != '"');
        assert(!spec_marker_head(s));
        assert(s.len() > 0);
        assert(spec_process(s) == seq![s[0]] + spec_process(s.drop_first()));
        assert(s.drop_first() =~= a.drop_first() + rest);
        assert(spec_quote_free(a.drop_first())) by {
            assert forall|i: int| 0 <= i < a.drop_first().len() implies a.drop_first()[i] != '"'
                by {
                assert(a.drop_first()[i] == a[i + 1]);
            }
        }
        lemma_process_quote_free_prefix(a.drop_first(), rest);
        assert(spec_process(s) =~= a + spec_process(rest));
    }
}

/// The marker pass rewrites a marker-tagged string holding a quote-free,
/// non-empty text to that bare text, and continues with the rest.
pub proof fn lemma_process_marked_fragment(v: Seq<char>, rest: Seq<char>)
    requires
        spec_quote_free(v),
        v.len() >= 1,
    ensures
        spec_process(seq!['"'] + spec_marker() + v + seq!['"'] + rest) == v + spec_process(rest),
{
    reveal_strlit("__RAW_JS__");
    let s = seq!['"'] + spec_marker() + v + seq!['"'] + rest;
    assert(spec_marker().len() == 10);
    assert(s.len() == 12 + v.len() + rest.len());
    assert(s[0] == '"');
    assert(s.subrange(1, 11) =~= spec_marker());
    assert(s.skip(11) =~= v + seq!['"'] + rest);
    let j = v.len() as int;
    assert(s.skip(11)[j] == '"');
    assert(forall|u: int| 0 <= u < j ==> s.skip(11)[u] == v[u]);
    lemma_find_quote_at(s.skip(11), j);
    assert(spec_marker_head(s));
    assert(spec_process(s) == s.subrange(11, 11 + j) + spec_process(s.skip(11 + j + 1)));
    assert(s.subrange(11, 11 + j) =~= v);
    assert(s.skip(11 + j + 1) =~= rest);
}


/// The marker's own characters pass through JSON escaping unchanged and
/// hold no double quote.
pub proof fn lemma_marker_plain()
    ensures
        crate::json::spec_escape_plain(spec_marker()),
        spec_quote_free(spec_marker()),
{
    reveal_strlit("__RAW_JS__");
    assert forall|i: int| 0 <= i < spec_marker().len() implies crate::json::spec_escape_char(
        spec_marker()[i],
    ) == seq![spec_marker()[i]] && spec_marker()[i] != '"' by {
    }
}

/// The marker pass copies a prefix that holds no marker start, provided the
/// rest opens with a double quote: a marker start cannot straddle the
/// boundary, because the marker itself holds no quote.
pub proof fn lemma_process_skips_prefix(a: Seq<char>, rest: Seq<char>)
    requires
        !spec_has_marker_start(a),
        rest.len() > 0 ==> rest[0] == '"',
    ensures
        spec_process(a + rest) == a + spec_process(rest),
    decreases a.len(),
{
    lemma_marker_plain();
    if a.len() == 0 {
        assert(a + rest =~= rest);
        assert(a + spec_process(rest) =~= spec_process(rest));
    } else {
        let s = a + rest;
        assert(s[0] == a[0]);
        assert(!spec_marker_head(s)) by {
            if spec_marker_head(s) {
                if 11 <= a.len() {
                    assert(s.subrange(0, 11) =~= a.subrange(0, 11));
                    assert(a.subrange(0, 11) =~= seq!['"'] + spec_marker());
                    assert(spec_has_marker_start(a));
                } else {
                    // The eleven-character window crosses into `rest`, so a
                    // marker character would have to be the opening quote.
                    assert(s.len() > 12);
                    assert(rest.len() > 0);
                    assert(s[a.len() as int] == rest[0]);
                    assert(s.subrange(1, 11)[a.len() - 1] == s[a.len() as int]);
                    assert(spec_marker()[a.len() - 1] == '"');
                }
            }
        }
        assert(spec_process(s) == seq![s[0]] + spec_process(s.drop_first()));
        assert(s.drop_first() =~= a.drop_first() + rest);
        assert(!spec_has_marker_start(a.drop_first())) by {
            if spec_has_marker_start(a.drop_first()) {
                let i = choose|i: int|
                    0 <= i && i + 11 <= a.drop_first().len() && #[trigger] a.drop_first()
                        .subrange(i, i + 11) == seq!['"'] + spec_marker();
                assert(a.subrange(i + 1, (i + 1) + 11) =~= a.drop_first().subrange(i, i + 11));
                assert(0 <= i + 1 && (i + 1) + 11 <= a.len() && a.subrange(i + 1, (i + 1) + 11)
                    == seq!['"'] + spec_marker());
                assert(spec_has_marker_start(a));
            }
        }
        lemma_process_skips_prefix(a.drop_first(), rest);
        assert(spec_process(s) =~= a + spec_process(rest));
    }
}

/// The marker pass rewrites the marked JSON string of a plain, non-empty
/// raw text to that bare text, and continues with the rest.
pub proof fn lemma_process_marked_string(p: Seq<char>, rest: Seq<char>)
    requires
        crate::json::spec_escape_plain(p),
        p.len() >= 1,
    ensures
        spec_process(crate::json::spec_json_string(spec_marker() + p) + rest) == p
            + spec_process(rest),
{
    lemma_marker_plain();
    assert(crate::json::spec_escape_plain(spec_marker() + p)) by {
        assert forall|i: int| 0 <= i < (spec_marker() + p).len() implies
            crate::json::spec_escape_char((spec_marker() + p)[i]) == seq![(spec_marker() + p)[i]]
            by {
            if i < spec_marker().len() {
                assert((spec_marker() + p)[i] == spec_marker()[i]);
            } else {
                assert((spec_marker() + p)[i] == p[i - spec_marker().len()]);
            }
        }
    }
    crate::json::lemma_escape_str_plain(spec_marker() + p);
    assert(spec_quote_free(p)) by {
        crate::json::lemma_escape_plain_quote_free(p);
    }
    assert(crate::json::spec_json_string(spec_marker() + p) + rest =~= seq!['"'] + spec_marker()
        + p + seq!['"'] + rest);
    lemma_process_marked_fragment(p, rest);
}

} // verus!
