//! The rich option set for role-based queries: accessible-name and
//! description matching, ARIA state filters, heading level, and range-value
//! filters.

use vstd::prelude::*;
use crate::json::spec_object;
use crate::json::spec_bool_str;
use crate::json::spec_json_string;
use crate::json::spec_dec_digits;
use crate::json::spec_i32_str;
use crate::json::seq_views;
use crate::json::push_bool;
use crate::json::push_json_string;
use crate::json::push_u64_dec;
use crate::json::push_i32_dec;
use crate::json::render_object;
use crate::json::opt_part;
use crate::json::push_part_bool;
use crate::strutil::chars_of_str;
use crate::strutil::chars_to_string;
use crate::strutil::push_chars;
use crate::strutil::push_str_chars;
use crate::text_match::TextMatch;

verus! {

/// The value of an `aria-current` filter.
#[derive(Debug, Clone)]
pub enum CurrentState {
    /// aria-current="false" or no aria-current attribute
    False,
    /// aria-current="true"
    True,
    /// aria-current="page"
    Page,
    /// aria-current="step"
    Step,
    /// aria-current="location"
    Location,
    /// aria-current="date"
    Date,
    /// aria-current="time"
    Time,
    /// Custom aria-current value
    Custom(String),
}

impl CurrentState {
    /// The serialized form: the two boolean states as JSON booleans, the
    /// named states as their lowercase tag, a custom state as its raw string.
    pub open spec fn spec_serialized(self) -> Seq<char> {
        match self {
            CurrentState::False => spec_bool_str(false),
            CurrentState::True => spec_bool_str(true),
            CurrentState::Page => "\"page\""@,
            CurrentState::Step => "\"step\""@,
            CurrentState::Location => "\"location\""@,
            CurrentState::Date => "\"date\""@,
            CurrentState::Time => "\"time\""@,
            CurrentState::Custom(s) => spec_json_string(s@),
        }
    }

    /// Append the serialized form to `out`.
    pub fn push_serialized(&self, out: &mut Vec<char>)
        ensures
            final(out)@ == old(out)@ + self.spec_serialized(),
    {
        match self {
            CurrentState::False => push_bool(out, false),
            CurrentState::True => push_bool(out, true),
            CurrentState::Page => push_str_chars(out, "\"page\""),
            CurrentState::Step => push_str_chars(out, "\"step\""),
            CurrentState::Location => push_str_chars(out, "\"location\""),
            CurrentState::Date => push_str_chars(out, "\"date\""),
            CurrentState::Time => push_str_chars(out, "\"time\""),
            CurrentState::Custom(s) => {
                let body = chars_of_str(s.as_str());
                push_json_string(out, &body);
            },
        }
    }
}

/// Options for value-based filters on range widgets.
#[derive(Debug, Clone)]
pub struct ValueOptions {
    /// Minimum value (aria-valuemin)
    pub min: Option<i32>,
    /// Maximum value (aria-valuemax)
    pub max: Option<i32>,
    /// Current value (aria-valuenow)
    pub now: Option<i32>,
    /// Text representation of value (aria-valuetext)
    pub text: Option<TextMatch>,
}

impl ValueOptions {
    /// The serialized members, in order.
    pub open spec fn spec_parts(self) -> Seq<Seq<char>> {
        opt_part(self.min is Some, "\"min\":"@ + spec_i32_str(self.min->0)) + opt_part(
            self.max is Some,
            "\"max\":"@ + spec_i32_str(self.max->0),
        ) + opt_part(self.now is Some, "\"now\":"@ + spec_i32_str(self.now->0)) + opt_part(
            self.text is Some,
            "\"text\":"@ + self.text->0.spec_serialized(),
        )
    }

    /// The serialized form: a compact JSON object with unset fields omitted.
    pub open spec fn spec_json(self) -> Seq<char> {
        spec_object(self.spec_parts())
    }

    /// Append the serialized form to `out`.
    pub fn push_serialized(&self, out: &mut Vec<char>)
        ensures
            final(out)@ == old(out)@ + self.spec_json(),
    {
        let mut parts: Vec<Vec<char>> = Vec::new();
        if let Some(v) = self.min {
            let mut f: Vec<char> = Vec::new();
            push_str_chars(&mut f, "\"min\":");
            push_i32_dec(&mut f, v);
            parts.push(f);
        }
        if let Some(v) = self.max {
            let mut f: Vec<char> = Vec::new();
            push_str_chars(&mut f, "\"max\":");
            push_i32_dec(&mut f, v);
            parts.push(f);
        }
        if let Some(v) = self.now {
            let mut f: Vec<char> = Vec::new();
            push_str_chars(&mut f, "\"now\":");
            push_i32_dec(&mut f, v);
            parts.push(f);
        }
        if let Some(t) = &self.text {
            let mut f: Vec<char> = Vec::new();
            push_str_chars(&mut f, "\"text\":");
            t.push_serialized(&mut f);
            parts.push(f);
        }
        proof {
            assert(seq_views(parts@) =~= self.spec_parts());
        }
        let obj = render_object(&parts);
        push_chars(out, &obj);
    }
}

/// Options for role-based queries.
#[derive(Debug, Clone)]
pub struct ByRoleOptions {
    /// Include elements normally excluded from accessibility tree
    pub hidden: Option<bool>,
    /// Filter by accessible name
    pub name: Option<TextMatch>,
    /// Filter by accessible description
    pub description: Option<TextMatch>,
    /// Filter by selected state (aria-selected)
    pub selected: Option<bool>,
    /// Filter by busy state (aria-busy)
    pub busy: Option<bool>,
    /// Filter by checked state (aria-checked)
    pub checked: Option<bool>,
    /// Filter by pressed state (aria-pressed)
    pub pressed: Option<bool>,
    /// Enable/disable query suggestions
    pub suggest: Option<bool>,
    /// Filter by current state (aria-current)
    pub current: Option<CurrentState>,
    /// Filter by expanded state (aria-expanded)
    pub expanded: Option<bool>,
    /// Enable querying fallback roles
    pub query_fallbacks: Option<bool>,
    /// Filter by heading level (only for heading role)
    pub level: Option<u8>,
    /// Filter by value properties (only for range widgets)
    pub value: Option<ValueOptions>,
}

impl ByRoleOptions {
    /// The serialized members, in order, with camelCase keys.
    pub open spec fn spec_parts(self) -> Seq<Seq<char>> {
        opt_part(self.hidden is Some, "\"hidden\":"@ + spec_bool_str(self.hidden->0)) + opt_part(
            self.name is Some,
            "\"name\":"@ + self.name->0.spec_serialized(),
        ) + opt_part(
            self.description is Some,
            "\"description\":"@ + self.description->0.spec_serialized(),
        ) + opt_part(self.selected is Some, "\"selected\":"@ + spec_bool_str(self.selected->0))
            + opt_part(self.busy is Some, "\"busy\":"@ + spec_bool_str(self.busy->0)) + opt_part(
            self.checked is Some,
            "\"checked\":"@ + spec_bool_str(self.checked->0),
        ) + opt_part(self.pressed is Some, "\"pressed\":"@ + spec_bool_str(self.pressed->0))
            + opt_part(self.suggest is Some, "\"suggest\":"@ + spec_bool_str(self.suggest->0))
            + opt_part(self.current is Some, "\"current\":"@ + self.current->0.spec_serialized())
            + opt_part(self.expanded is Some, "\"expanded\":"@ + spec_bool_str(self.expanded->0))
            + opt_part(
            self.query_fallbacks is Some,
            "\"queryFallbacks\":"@ + spec_bool_str(self.query_fallbacks->0),
        ) + opt_part(self.level is Some, "\"level\":"@ + spec_dec_digits(self.level->0 as nat))
            + opt_part(self.value is Some, "\"value\":"@ + self.value->0.spec_json())
    }

    /// The serialized form before marker post-processing: a compact JSON
    /// object with unset fields omitted; regex-valued filters carry the
    /// internal marker.
    pub open spec fn spec_json(self) -> Seq<char> {
        spec_object(self.spec_parts())
    }

    /// Create a new instance with every field unset.
    pub fn new() -> (r: Self)
        ensures
            r == ByRoleOptions::spec_empty(),
    {
        ByRoleOptions {
            hidden: None,
            name: None,
            description: None,
            selected: None,
            busy: None,
            checked: None,
            pressed: None,
            suggest: None,
            current: None,
            expanded: None,
            query_fallbacks: None,
            level: None,
            value: None,
        }
    }

    /// The all-unset option set.
    pub open spec fn spec_empty() -> ByRoleOptions {
        ByRoleOptions {
            hidden: None,
            name: None,
            description: None,
            selected: None,
            busy: None,
            checked: None,
            pressed: None,
            suggest: None,
            current: None,
            expanded: None,
            query_fallbacks: None,
            level: None,
            value: None,
        }
    }

    /// Set the hidden option.
    pub fn hidden(self, hidden: bool) -> (r: Self)
        ensures
            r == (ByRoleOptions { hidden: Some(hidden), ..self }),
    {
        ByRoleOptions { hidden: Some(hidden), ..self }
    }

    /// Set the name option.
    pub fn name(self, name: TextMatch) -> (r: Self)
        ensures
            r == (ByRoleOptions { name: Some(name), ..self }),
    {
        ByRoleOptions { name: Some(name), ..self }
    }

    /// Set the description option.
    pub fn description(self, description: TextMatch) -> (r: Self)
        ensures
            r == (ByRoleOptions { description: Some(description), ..self }),
    {
        ByRoleOptions { description: Some(description), ..self }
    }

    /// Set the selected option.
    pub fn selected(self, selected: bool) -> (r: Self)
        ensures
            r == (ByRoleOptions { selected: Some(selected), ..self }),
    {
        ByRoleOptions { selected: Some(selected), ..self }
    }

    /// Set the busy option.
    pub fn busy(self, busy: bool) -> (r: Self)
        ensures
            r == (ByRoleOptions { busy: Some(busy), ..self }),
    {
        ByRoleOptions { busy: Some(busy), ..self }
    }

    /// Set the checked option.
    pub fn checked(self, checked: bool) -> (r: Self)
        ensures
            r == (ByRoleOptions { checked: Some(checked), ..self }),
    {
        ByRoleOptions { checked: Some(checked), ..self }
    }

    /// Set the pressed option.
    pub fn pressed(self, pressed: bool) -> (r: Self)
        ensures
            r == (ByRoleOptions { pressed: Some(pressed), ..self }),
    {
        ByRoleOptions { pressed: Some(pressed), ..self }
    }

    /// Set the suggest option.
    pub fn suggest(self, suggest: bool) -> (r: Self)
        ensures
            r == (ByRoleOptions { suggest: Some(suggest), ..self }),
    {
        ByRoleOptions { suggest: Some(suggest), ..self }
    }

    /// Set the current option.
    pub fn current(self, current: CurrentState) -> (r: Self)
        ensures
            r == (ByRoleOptions { current: Some(current), ..self }),
    {
        ByRoleOptions { current: Some(current), ..self }
    }

    /// Set the expanded option.
    pub fn expanded(self, expanded: bool) -> (r: Self)
        ensures
            r == (ByRoleOptions { expanded: Some(expanded), ..self }),
    {
        ByRoleOptions { expanded: Some(expanded), ..self }
    }

    /// Set the query_fallbacks option.
    pub fn query_fallbacks(self, query_fallbacks: bool) -> (r: Self)
        ensures
            r == (ByRoleOptions { query_fallbacks: Some(query_fallbacks), ..self }),
    {
        ByRoleOptions { query_fallbacks: Some(query_fallbacks), ..self }
    }

    /// Set the level option (only for the heading role).
    pub fn level(self, level: u8) -> (r: Self)
        ensures
            r == (ByRoleOptions { level: Some(level), ..self }),
    {
        ByRoleOptions { level: Some(level), ..self }
    }

    /// Set the value option (only for range widgets).
    pub fn value(self, value: ValueOptions) -> (r: Self)
        ensures
            r == (ByRoleOptions { value: Some(value), ..self }),
    {
        ByRoleOptions { value: Some(value), ..self }
    }

    /// Whether every field is unset: such a set stands for "no options"
    /// and is omitted from a rendered script altogether.
    pub fn is_unset(&self) -> (r: bool)
        ensures
            r == (*self == ByRoleOptions::spec_empty()),
    {
        self.hidden.is_none() && self.name.is_none() && self.description.is_none()
            && self.selected.is_none() && self.busy.is_none() && self.checked.is_none()
            && self.pressed.is_none() && self.suggest.is_none() && self.current.is_none()
            && self.expanded.is_none() && self.query_fallbacks.is_none() && self.level.is_none()
            && self.value.is_none()
    }

    /// Serialize the options to a JSON string, with marker post-processing
    /// applied, so regex-valued filters appear as bare regex literals.
    pub fn to_json_string(&self) -> (r: String)
        ensures
            r@ == crate::text_match::spec_process(self.spec_json()),
    {
        let marked = self.to_marked_chars();
        let processed = crate::text_match::process_chars(&marked);
        chars_to_string(&processed)
    }

    /// The serialized form before marker post-processing.
    #[verifier::rlimit(60)]
    pub fn to_marked_chars(&self) -> (r: Vec<char>)
        ensures
            r@ == self.spec_json(),
    {
        let mut parts: Vec<Vec<char>> = Vec::new();
        push_part_bool(&mut parts, "\"hidden\":", self.hidden);
        push_part_text_match(&mut parts, "\"name\":", &self.name);
        push_part_text_match(&mut parts, "\"description\":", &self.description);
        push_part_bool(&mut parts, "\"selected\":", self.selected);
        push_part_bool(&mut parts, "\"busy\":", self.busy);
        push_part_bool(&mut parts, "\"checked\":", self.checked);
        push_part_bool(&mut parts, "\"pressed\":", self.pressed);
        push_part_bool(&mut parts, "\"suggest\":", self.suggest);
        push_part_current(&mut parts, "\"current\":", &self.current);
        push_part_bool(&mut parts, "\"expanded\":", self.expanded);
        push_part_bool(&mut parts, "\"queryFallbacks\":", self.query_fallbacks);
        push_part_level(&mut parts, "\"level\":", self.level);
        push_part_value(&mut parts, "\"value\":", &self.value);
        proof {
            assert(seq_views(parts@) =~= self.spec_parts());
        }
        render_object(&parts)
    }
}


/// Append the member for an optional text-match field.
fn push_part_text_match(parts: &mut Vec<Vec<char>>, key: &str, opt: &Option<TextMatch>)
    ensures
        seq_views(final(parts)@) == seq_views(old(parts)@) + opt_part(
            opt is Some,
            key@ + opt->0.spec_serialized(),
        ),
{
    if let Some(t) = opt {
        let mut f: Vec<char> = Vec::new();
        push_str_chars(&mut f, key);
        t.push_serialized(&mut f);
        parts.push(f);
    }
    proof {
        assert(seq_views(parts@) =~= seq_views(old(parts)@) + opt_part(
            opt is Some,
            key@ + opt->0.spec_serialized(),
        ));
    }
}

/// Append the member for an optional current-state field.
fn push_part_current(parts: &mut Vec<Vec<char>>, key: &str, opt: &Option<CurrentState>)
    ensures
        seq_views(final(parts)@) == seq_views(old(parts)@) + opt_part(
            opt is Some,
            key@ + opt->0.spec_serialized(),
        ),
{
    if let Some(c) = opt {
        let mut f: Vec<char> = Vec::new();
        push_str_chars(&mut f, key);
        c.push_serialized(&mut f);
        parts.push(f);
    }
    proof {
        assert(seq_views(parts@) =~= seq_views(old(parts)@) + opt_part(
            opt is Some,
            key@ + opt->0.spec_serialized(),
        ));
    }
}

/// Append the member for an optional heading-level field.
fn push_part_level(parts: &mut Vec<Vec<char>>, key: &str, opt: Option<u8>)
    ensures
        seq_views(final(parts)@) == seq_views(old(parts)@) + opt_part(
            opt is Some,
            key@ + spec_dec_digits(opt->0 as nat),
        ),
{
    if let Some(v) = opt {
        let mut f: Vec<char> = Vec::new();
        push_str_chars(&mut f, key);
        push_u64_dec(&mut f, v as u64);
        parts.push(f);
    }
    proof {
        assert(seq_views(parts@) =~= seq_views(old(parts)@) + opt_part(
            opt is Some,
            key@ + spec_dec_digits(opt->0 as nat),
        ));
    }
}

/// Append the member for an optional range-value field.
fn push_part_value(parts: &mut Vec<Vec<char>>, key: &str, opt: &Option<ValueOptions>)
    ensures
        seq_views(final(parts)@) == seq_views(old(parts)@) + opt_part(
            opt is Some,
            key@ + opt->0.spec_json(),
        ),
{
    if let Some(v) = opt {
        let mut f: Vec<char> = Vec::new();
        push_str_chars(&mut f, key);
        v.push_serialized(&mut f);
        parts.push(f);
    }
    proof {
        assert(seq_views(parts@) =~= seq_views(old(parts)@) + opt_part(
            opt is Some,
            key@ + opt->0.spec_json(),
        ));
    }
}

/// A role option set with every field unset serializes to the empty object,
/// and the marker pass leaves it unchanged.
pub proof fn lemma_empty_role_options_json(o: ByRoleOptions)
    requires
        o == ByRoleOptions::spec_empty(),
    ensures
        o.spec_json() == "{}"@,
        crate::text_match::spec_process(o.spec_json()) == "{}"@,
{
    reveal_strlit("{}");
    assert(o.spec_parts() =~= Seq::<Seq<char>>::empty());
    assert(o.spec_json() =~= "{}"@);
    assert(!crate::text_match::spec_has_marker_start(o.spec_json())) by {
        crate::text_match::lemma_marker_start_needs_len(o.spec_json());
    }
    crate::text_match::lemma_process_no_markers(o.spec_json());
}

/// A value option set with every field unset serializes to the empty object.
pub proof fn lemma_empty_value_options_json(o: ValueOptions)
    requires
        o.min is None,
        o.max is None,
        o.now is None,
        o.text is None,
    ensures
        o.spec_json() == "{}"@,
{
    reveal_strlit("{}");
    assert(o.spec_parts() =~= Seq::<Seq<char>>::empty());
    assert(o.spec_json() =~= "{}"@);
}


/// A regex-valued accessible-name filter reaches the processed option
/// object as the bare pattern: no quotes around it and the marker gone.
/// (This covers patterns whose characters pass through JSON escaping
/// unchanged; a pattern holding a double quote ends the marker-tagged
/// string early and is outside this statement.)
pub proof fn lemma_regex_name_bare_in_options(o: ByRoleOptions, p: Seq<char>)
    requires
        o.name matches Some(t) && t is Regex && t.spec_text() == p,
        o.hidden is None,
        o.description is None,
        o.selected is None,
        o.busy is None,
        o.checked is None,
        o.pressed is None,
        o.suggest is None,
        o.current is None,
        o.expanded is None,
        o.query_fallbacks is None,
        o.level is None,
        o.value is None,
        crate::json::spec_escape_plain(p),
        p.len() >= 1,
    ensures
        crate::text_match::spec_process(o.spec_json()) == "{\"name\":"@ + p + "}"@,
{
    let serialized = spec_json_string(crate::text_match::spec_marker() + p);
    assert(o.name->0.spec_serialized() == serialized);
    let frag = "\"name\":"@ + serialized;
    assert(o.spec_parts() =~= seq![frag]);
    assert(crate::json::spec_join_comma(seq![frag]) == frag);
    let a = seq!['{'] + "\"name\":"@;
    let rest = serialized + seq!['}'];
    assert(o.spec_json() =~= a + rest);
    reveal_strlit("\"name\":");
    crate::text_match::lemma_marker_start_needs_len(a);
    assert(rest[0] == '"');
    crate::text_match::lemma_process_skips_prefix(a, rest);
    crate::text_match::lemma_process_marked_string(p, seq!['}']);
    assert(crate::text_match::spec_quote_free(seq!['}']));
    crate::text_match::lemma_process_quote_free_prefix(seq!['}'], Seq::empty());
    assert(seq!['}'] + Seq::<char>::empty() =~= seq!['}']);
    assert(crate::text_match::spec_process(Seq::<char>::empty()) == Seq::<char>::empty());
    assert(crate::text_match::spec_process(seq!['}']) =~= seq!['}']);
    assert(crate::text_match::spec_process(o.spec_json()) == a + (p + seq!['}']));
    reveal_strlit("{\"name\":");
    reveal_strlit("}");
    assert(a + (p + seq!['}']) =~= "{\"name\":"@ + p + "}"@);
}

} // verus!
