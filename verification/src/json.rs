//! A small deterministic JSON renderer.
//!
//! Option sets are rendered to compact JSON objects (`{"key":value,...}`)
//! with unset fields omitted. Every rendering function carries an exact
//! contract: the produced characters equal a spec-level sequence, so callers
//! can reason about the serialized text character by character.

use vstd::prelude::*;
use crate::strutil::push_chars;

verus! {

/// The lowercase hexadecimal digit for `n`.
pub open spec fn spec_hex_digit(n: int) -> char {
    if n == 0 { '0' } else if n == 1 { '1' } else if n == 2 { '2' } else if n == 3 { '3' }
    else if n == 4 { '4' } else if n == 5 { '5' } else if n == 6 { '6' } else if n == 7 { '7' }
    else if n == 8 { '8' } else if n == 9 { '9' } else if n == 10 { 'a' } else if n == 11 { 'b' }
    else if n == 12 { 'c' } else if n == 13 { 'd' } else if n == 14 { 'e' } else { 'f' }
}

/// The decimal digit for `n`.
pub open spec fn spec_digit(n: int) -> char {
    spec_hex_digit(if 0 <= n < 10 { n } else { 0 })
}

/// How one character is written inside a JSON string literal: the two-letter
/// escapes for quote, backslash and the common control characters, `\u00xx`
/// for the remaining control characters, and the character itself otherwise.
pub open spec fn spec_escape_char(c: char) -> Seq<char> {
    if c == '"' { seq!['\\', '"'] }
    else if c == '\\' { seq!['\\', '\\'] }
    else if c == '\u{08}' { seq!['\\', 'b'] }
    else if c == '\u{09}' { seq!['\\', 't'] }
    else if c == '\u{0A}' { seq!['\\', 'n'] }
    else if c == '\u{0C}' { seq!['\\', 'f'] }
    else if c == '\u{0D}' { seq!['\\', 'r'] }
    else if (c as u32) < 0x20 {
        seq!['\\', 'u', '0', '0', spec_hex_digit((c as u32) as int / 16), spec_hex_digit((c as u32) as int % 16)]
    }
    else { seq![c] }
}

/// The body of a JSON string literal holding the characters `s`.
pub open spec fn spec_escape_str(s: Seq<char>) -> Seq<char>
    decreases s.len(),
{
    if s.len() == 0 {
        Seq::empty()
    } else {
        spec_escape_char(s[0]) + spec_escape_str(s.drop_first())
    }
}

/// A complete JSON string literal: quote, escaped body, quote.
pub open spec fn spec_json_string(s: Seq<char>) -> Seq<char> {
    seq!['"'] + spec_escape_str(s) + seq!['"']
}

pub proof fn lemma_escape_str_snoc(s: Seq<char>, c: char)
    ensures
        spec_escape_str(s.push(c)) == spec_escape_str(s) + spec_escape_char(c),
    decreases s.len(),
{
    if s.len() == 0 {
        assert(s.push(c).drop_first() =~= Seq::<char>::empty());
        assert(s.push(c)[0] == c);
        assert(spec_escape_str(s.push(c)) == spec_escape_char(c) + spec_escape_str(
            Seq::<char>::empty()));
        assert(spec_escape_str(s.push(c)) =~= spec_escape_str(s) + spec_escape_char(c));
    } else {
        assert(s.push(c).drop_first() =~= s.drop_first().push(c));
        assert(s.push(c)[0] == s[0]);
        assert(spec_escape_str(s.push(c)) == spec_escape_char(s[0]) + spec_escape_str(
            s.drop_first().push(c)));
        lemma_escape_str_snoc(s.drop_first(), c);
        assert(spec_escape_str(s.push(c)) =~= spec_escape_str(s) + spec_escape_char(c));
    }
}

/// The lowercase hexadecimal digit for `n`.
pub fn hex_digit(n: u32) -> (c: char)
    requires
        n < 16,
    ensures
        c == spec_hex_digit(n as int),
{
    if n == 0 { '0' } else if n == 1 { '1' } else if n == 2 { '2' } else if n == 3 { '3' }
    else if n == 4 { '4' } else if n == 5 { '5' } else if n == 6 { '6' } else if n == 7 { '7' }
    else if n == 8 { '8' } else if n == 9 { '9' } else if n == 10 { 'a' } else if n == 11 { 'b' }
    else if n == 12 { 'c' } else if n == 13 { 'd' } else if n == 14 { 'e' } else { 'f' }
}

/// Append the escaped form of the single character `c` to `out`.
pub fn push_escaped_char(out: &mut Vec<char>, c: char)
    ensures
        final(out)@ == old(out)@ + spec_escape_char(c),
{
    if c == '"' {
        out.push('\\');
        out.push('"');
    } else if c == '\\' {
        out.push('\\');
        out.push('\\');
    } else if c == '\u{08}' {
        out.push('\\');
        out.push('b');
    } else if c == '\u{09}' {
        out.push('\\');
        out.push('t');
    } else if c == '\u{0A}' {
        out.push('\\');
        out.push('n');
    } else if c == '\u{0C}' {
        out.push('\\');
        out.push('f');
    } else if c == '\u{0D}' {
        out.push('\\');
        out.push('r');
    } else if (c as u32) < 0x20 {
        out.push('\\');
        out.push('u');
        out.push('0');
        out.push('0');
        let u = c as u32;
        out.push(hex_digit(u / 16));
        out.push(hex_digit(u % 16));
    } else {
        out.push(c);
    }
    proof {
        assert(out@ =~= old(out)@ + spec_escape_char(c));
    }
}

/// Append the escaped body of a JSON string literal holding `s` to `out`.
pub fn push_escaped(out: &mut Vec<char>, s: &Vec<char>)
    ensures
        final(out)@ == old(out)@ + spec_escape_str(s@),
{
    let n = s.len();
    let mut i: usize = 0;
    while i < n
        invariant
            i <= n,
            n == s@.len(),
            out@ == old(out)@ + spec_escape_str(s@.take(i as int)),
        decreases n - i,
    {
        push_escaped_char(out, s[i]);
        proof {
            assert(s@.take(i + 1) =~= s@.take(i as int).push(s@[i as int]));
            lemma_escape_str_snoc(s@.take(i as int), s@[i as int]);
        }
        i += 1;
    }
    proof {
        assert(s@.take(n as int) =~= s@);
    }
}

/// Append a complete JSON string literal holding `s` to `out`.
pub fn push_json_string(out: &mut Vec<char>, s: &Vec<char>)
    ensures
        final(out)@ == old(out)@ + spec_json_string(s@),
{
    out.push('"');
    push_escaped(out, s);
    out.push('"');
    proof {
        assert(out@ =~= old(out)@ + spec_json_string(s@));
    }
}

/// The decimal digits of `n`, most significant first.
pub open spec fn spec_dec_digits(n: nat) -> Seq<char>
    decreases n,
{
    if n < 10 {
        seq![spec_digit(n as int)]
    } else {
        spec_dec_digits(n / 10).push(spec_digit((n % 10) as int))
    }
}

/// The decimal rendering of a signed value: a minus sign for negatives,
/// then the digits of the magnitude.
pub open spec fn spec_i32_str(n: i32) -> Seq<char> {
    if n >= 0 {
        spec_dec_digits(n as nat)
    } else {
        seq!['-'] + spec_dec_digits((-(n as int)) as nat)
    }
}

/// Append the decimal digits of `n` to `out`.
#[verifier::rlimit(30)]
pub fn push_u64_dec(out: &mut Vec<char>, n: u64)
    ensures
        final(out)@ == old(out)@ + spec_dec_digits(n as nat),
{
    let mut rev: Vec<char> = Vec::new();
    let mut m: u64 = n;
    proof {
        assert(rev@.reverse() =~= Seq::<char>::empty());
        assert(spec_dec_digits(n as nat) =~= spec_dec_digits(n as nat) + rev@.reverse());
    }
    loop
        invariant_except_break
            spec_dec_digits(n as nat) == spec_dec_digits(m as nat) + rev@.reverse(),
        ensures
            spec_dec_digits(n as nat) == rev@.reverse(),
        decreases m,
    {
        proof {
            assert(m >= 10 ==> m / 10 < m) by (nonlinear_arith);
        }
        let d: u64 = m % 10;
        let ghost old_rev = rev@;
        rev.push(hex_digit(d as u32));
        proof {
            assert(rev@.reverse() =~= seq![spec_digit(d as int)] + old_rev.reverse());
            if m >= 10 {
                assert(spec_dec_digits(m as nat) == spec_dec_digits((m as nat) / 10).push(
                    spec_digit(((m as nat) % 10) as int)));
                assert(spec_dec_digits((m / 10) as nat) + rev@.reverse() =~= spec_dec_digits(
                    m as nat) + old_rev.reverse());
            } else {
                assert(spec_dec_digits(m as nat) =~= seq![spec_digit(d as int)]);
                assert(rev@.reverse() =~= spec_dec_digits(m as nat) + old_rev.reverse());
            }
        }
        m = m / 10;
        if m == 0 {
            break;
        }
    }
    let mut i: usize = rev.len();
    while i > 0
        invariant
            i <= rev@.len(),
            out@ == old(out)@ + rev@.reverse().take(rev@.len() - i),
        decreases i,
    {
        i -= 1;
        out.push(rev[i]);
        proof {
            assert(rev@.reverse().take(rev@.len() - i) =~= rev@.reverse().take(
                rev@.len() - i - 1).push(rev@[i as int]));
        }
    }
    proof {
        assert(rev@.reverse().take(rev@.len() as int) =~= rev@.reverse());
    }
}

/// Append the decimal rendering of `n` to `out`.
pub fn push_i32_dec(out: &mut Vec<char>, n: i32)
    ensures
        final(out)@ == old(out)@ + spec_i32_str(n),
{
    if n < 0 {
        out.push('-');
        let m: u64 = (-(n as i64)) as u64;
        push_u64_dec(out, m);
        proof {
            assert(out@ =~= old(out)@ + spec_i32_str(n));
        }
    } else {
        push_u64_dec(out, n as u64);
    }
}

/// The JSON rendering of a boolean.
pub open spec fn spec_bool_str(b: bool) -> Seq<char> {
    if b { "true"@ } else { "false"@ }
}

/// Append `true` or `false` to `out`.
pub fn push_bool(out: &mut Vec<char>, b: bool)
    ensures
        final(out)@ == old(out)@ + spec_bool_str(b),
{
    if b {
        crate::strutil::push_str_chars(out, "true");
    } else {
        crate::strutil::push_str_chars(out, "false");
    }
}

/// The views of a sequence of character vectors.
pub open spec fn seq_views(ps: Seq<Vec<char>>) -> Seq<Seq<char>> {
    ps.map_values(|p: Vec<char>| p@)
}

/// The comma-separated join of `ps`.
pub open spec fn spec_join_comma(ps: Seq<Seq<char>>) -> Seq<char>
    decreases ps.len(),
{
    if ps.len() == 0 {
        Seq::empty()
    } else if ps.len() == 1 {
        ps[0]
    } else {
        ps[0] + seq![','] + spec_join_comma(ps.drop_first())
    }
}

pub proof fn lemma_join_comma_snoc(ps: Seq<Seq<char>>, p: Seq<char>)
    ensures
        ps.len() == 0 ==> spec_join_comma(ps.push(p)) == p,
        ps.len() > 0 ==> spec_join_comma(ps.push(p)) == spec_join_comma(ps) + seq![','] + p,
    decreases ps.len(),
{
    if ps.len() == 0 {
        assert(spec_join_comma(ps.push(p)) =~= p);
    } else if ps.len() == 1 {
        assert(ps.push(p).drop_first() =~= seq![p]);
        assert(spec_join_comma(seq![p]) == p);
        assert(ps.push(p)[0] == ps[0]);
        assert(spec_join_comma(ps.push(p)) == ps.push(p)[0] + seq![','] + spec_join_comma(
            ps.push(p).drop_first()));
        assert(spec_join_comma(ps) == ps[0]);
        assert(spec_join_comma(ps.push(p)) =~= spec_join_comma(ps) + seq![','] + p);
    } else {
        assert(ps.push(p).drop_first() =~= ps.drop_first().push(p));
        assert(ps.push(p)[0] == ps[0]);
        assert(spec_join_comma(ps.push(p)) == ps[0] + seq![','] + spec_join_comma(
            ps.drop_first().push(p)));
        lemma_join_comma_snoc(ps.drop_first(), p);
        assert(spec_join_comma(ps) == ps[0] + seq![','] + spec_join_comma(ps.drop_first()));
        assert(ps[0] + seq![','] + (spec_join_comma(ps.drop_first()) + seq![','] + p) =~= (ps[0]
            + seq![','] + spec_join_comma(ps.drop_first())) + seq![','] + p);
        assert(spec_join_comma(ps.push(p)) == spec_join_comma(ps) + seq![','] + p);
    }
}

/// A compact JSON object whose members are the fragments `ps`, in order.
pub open spec fn spec_object(ps: Seq<Seq<char>>) -> Seq<char> {
    seq!['{'] + spec_join_comma(ps) + seq!['}']
}

/// Render a compact JSON object from the member fragments `parts`.
pub fn render_object(parts: &Vec<Vec<char>>) -> (r: Vec<char>)
    ensures
        r@ == spec_object(seq_views(parts@)),
{
    let mut out: Vec<char> = Vec::new();
    out.push('{');
    let n = parts.len();
    let mut i: usize = 0;
    while i < n
        invariant
            i <= n,
            n == parts@.len(),
            out@ == seq!['{'] + spec_join_comma(seq_views(parts@.take(i as int))),
        decreases n - i,
    {
        if i > 0 {
            out.push(',');
        }
        push_chars(&mut out, &parts[i]);
        proof {
            assert(seq_views(parts@.take(i + 1)) =~= seq_views(parts@.take(i as int)).push(
                parts@[i as int]@));
            lemma_join_comma_snoc(seq_views(parts@.take(i as int)), parts@[i as int]@);
            assert(out@ =~= seq!['{'] + spec_join_comma(seq_views(parts@.take(i + 1))));
        }
        i += 1;
    }
    out.push('}');
    proof {
        assert(parts@.take(n as int) =~= parts@);
        assert(out@ =~= spec_object(seq_views(parts@)));
    }
    out
}


/// A singleton member list when `present`, an empty one otherwise.
pub open spec fn opt_part(present: bool, frag: Seq<char>) -> Seq<Seq<char>> {
    if present {
        seq![frag]
    } else {
        Seq::empty()
    }
}

/// Append the member for an optional boolean field.
pub fn push_part_bool(parts: &mut Vec<Vec<char>>, key: &str, opt: Option<bool>)
    ensures
        seq_views(final(parts)@) == seq_views(old(parts)@) + opt_part(
            opt is Some,
            key@ + spec_bool_str(opt->0),
        ),
{
    if let Some(b) = opt {
        let mut f: Vec<char> = Vec::new();
        crate::strutil::push_str_chars(&mut f, key);
        push_bool(&mut f, b);
        parts.push(f);
    }
    proof {
        assert(seq_views(parts@) =~= seq_views(old(parts)@) + opt_part(
            opt is Some,
            key@ + spec_bool_str(opt->0),
        ));
    }
}

/// Append the member for an optional string field.
pub fn push_part_string(parts: &mut Vec<Vec<char>>, key: &str, opt: &Option<String>)
    ensures
        seq_views(final(parts)@) == seq_views(old(parts)@) + opt_part(
            opt is Some,
            key@ + spec_json_string(opt->0@),
        ),
{
    if let Some(s) = opt {
        let mut f: Vec<char> = Vec::new();
        crate::strutil::push_str_chars(&mut f, key);
        let body = crate::strutil::chars_of_str(s.as_str());
        push_json_string(&mut f, &body);
        parts.push(f);
    }
    proof {
        assert(seq_views(parts@) =~= seq_views(old(parts)@) + opt_part(
            opt is Some,
            key@ + spec_json_string(opt->0@),
        ));
    }
}

/// Append the member for an optional unsigned numeric field.
pub fn push_part_u64(parts: &mut Vec<Vec<char>>, key: &str, opt: Option<u64>)
    ensures
        seq_views(final(parts)@) == seq_views(old(parts)@) + opt_part(
            opt is Some,
            key@ + spec_dec_digits(opt->0 as nat),
        ),
{
    if let Some(v) = opt {
        let mut f: Vec<char> = Vec::new();
        crate::strutil::push_str_chars(&mut f, key);
        push_u64_dec(&mut f, v);
        parts.push(f);
    }
    proof {
        assert(seq_views(parts@) =~= seq_views(old(parts)@) + opt_part(
            opt is Some,
            key@ + spec_dec_digits(opt->0 as nat),
        ));
    }
}


/// Whether every character of `s` is written as itself inside a JSON string
/// literal: no quotes, no backslashes, no control characters.
pub open spec fn spec_escape_plain(s: Seq<char>) -> bool {
    forall|i: int| 0 <= i < s.len() ==> spec_escape_char(s[i]) == seq![s[i]]
}

/// A plain text passes through JSON string escaping unchanged.
pub proof fn lemma_escape_str_plain(s: Seq<char>)
    requires
        spec_escape_plain(s),
    ensures
        spec_escape_str(s) == s,
    decreases s.len(),
{
    if s.len() == 0 {
        assert(spec_escape_str(s) =~= s);
    } else {
        assert(spec_escape_char(s[0]) == seq![s[0]]);
        assert(spec_escape_plain(s.drop_first())) by {
            assert forall|i: int| 0 <= i < s.drop_first().len() implies spec_escape_char(
                s.drop_first()[i],
            ) == seq![s.drop_first()[i]] by {
                assert(s.drop_first()[i] == s[i + 1]);
            }
        }
        lemma_escape_str_plain(s.drop_first());
        assert(spec_escape_str(s) =~= s);
    }
}

/// Plain text holds no double quote: a quote never escapes to itself.
pub proof fn lemma_escape_plain_quote_free(s: Seq<char>)
    requires
        spec_escape_plain(s),
    ensures
        forall|i: int| 0 <= i < s.len() ==> s[i] != '"',
{
    assert forall|i: int| 0 <= i < s.len() implies s[i] != '"' by {
        if s[i] == '"' {
            assert(spec_escape_char(s[i]) == seq!['\\', '"']);
            assert(spec_escape_char(s[i]).len() == 2);
        }
    }
}

} // verus!
