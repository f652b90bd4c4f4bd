//! Selector descriptors: what to find, by which semantic attribute, with
//! which option set. A selector's kind is fixed at construction, and an
//! option set can only be attached through the builder of the matching kind.

use vstd::prelude::*;
use vstd::string::StringExecFns;
use crate::label_text::ByLabelTextOptions;
use crate::role::ByRoleOptions;
use crate::role::CurrentState;
use crate::role::ValueOptions;
use crate::simple::ByAltTextOptions;
use crate::simple::ByDisplayValueOptions;
use crate::simple::ByPlaceholderTextOptions;
use crate::simple::ByTestIdOptions;
use crate::simple::ByTextOptions;
use crate::simple::ByTitleOptions;
use crate::simple::SimpleOptions;
use crate::strutil::chars_to_string;
use crate::text_match::TextMatch;
use crate::text_match::spec_process;
use crate::text_match::process_chars;

verus! {

/// The option set attached to a selector, tagged by the selector kind.
#[derive(Debug, Clone)]
pub enum Options {
    /// Role-based query options
    Role(ByRoleOptions),
    /// Text-based query options
    Text(ByTextOptions),
    /// Label text query options
    LabelText(ByLabelTextOptions),
    /// Placeholder text query options
    PlaceholderText(ByPlaceholderTextOptions),
    /// Display value query options
    DisplayValue(ByDisplayValueOptions),
    /// Alt text query options
    AltText(ByAltTextOptions),
    /// Title query options
    Title(ByTitleOptions),
    /// Test ID query options
    TestId(ByTestIdOptions),
}

impl Options {
    /// The serialized form of whichever option set is held, before marker
    /// post-processing.
    pub open spec fn spec_json_marked(self) -> Seq<char> {
        match self {
            Options::Role(o) => o.spec_json(),
            Options::Text(o) => o.spec_json(),
            Options::LabelText(o) => o.spec_json(),
            Options::PlaceholderText(o) => o.spec_json(),
            Options::DisplayValue(o) => o.spec_json(),
            Options::AltText(o) => o.spec_json(),
            Options::Title(o) => o.spec_json(),
            Options::TestId(o) => o.spec_json(),
        }
    }

    /// The serialized form before marker post-processing, as characters.
    pub fn to_marked_chars(&self) -> (r: Vec<char>)
        ensures
            r@ == self.spec_json_marked(),
    {
        match self {
            Options::Role(o) => o.to_marked_chars(),
            Options::Text(o) => o.to_chars(),
            Options::LabelText(o) => o.to_chars(),
            Options::PlaceholderText(o) => o.to_chars(),
            Options::DisplayValue(o) => o.to_chars(),
            Options::AltText(o) => o.to_chars(),
            Options::Title(o) => o.to_chars(),
            Options::TestId(o) => o.to_chars(),
        }
    }

    /// Serialize the held option set to a JSON string, with marker
    /// post-processing applied.
    pub fn to_json_string(&self) -> (r: String)
        ensures
            r@ == spec_process(self.spec_json_marked()),
    {
        let marked = self.to_marked_chars();
        let processed = process_chars(&marked);
        chars_to_string(&processed)
    }
}

/// A selector for unified DOM queries: the kind of semantic attribute to
/// match, the value to match it against, and an optional option set of the
/// same kind.
#[derive(Debug, Clone)]
pub enum By {
    /// Query by element role
    Role(String, Option<Options>),
    /// Query by text content
    Text(String, Option<Options>),
    /// Query by label text
    LabelText(String, Option<Options>),
    /// Query by placeholder text
    PlaceholderText(String, Option<Options>),
    /// Query by display value
    DisplayValue(String, Option<Options>),
    /// Query by alt text
    AltText(String, Option<Options>),
    /// Query by title
    Title(String, Option<Options>),
    /// Query by test ID
    TestId(String, Option<Options>),
}

impl By {
    /// The method-name suffix of this selector kind.
    pub open spec fn spec_function_suffix(self) -> Seq<char> {
        match self {
            By::Role(_, _) => "Role"@,
            By::Text(_, _) => "Text"@,
            By::LabelText(_, _) => "LabelText"@,
            By::PlaceholderText(_, _) => "PlaceholderText"@,
            By::DisplayValue(_, _) => "DisplayValue"@,
            By::AltText(_, _) => "AltText"@,
            By::Title(_, _) => "Title"@,
            By::TestId(_, _) => "TestId"@,
        }
    }

    /// The match value.
    pub open spec fn spec_value(self) -> Seq<char> {
        match self {
            By::Role(value, _) => value@,
            By::Text(value, _) => value@,
            By::LabelText(value, _) => value@,
            By::PlaceholderText(value, _) => value@,
            By::DisplayValue(value, _) => value@,
            By::AltText(value, _) => value@,
            By::Title(value, _) => value@,
            By::TestId(value, _) => value@,
        }
    }

    /// The attached options, if any.
    pub open spec fn spec_options(self) -> Option<Options> {
        match self {
            By::Role(_, options) => options,
            By::Text(_, options) => options,
            By::LabelText(_, options) => options,
            By::PlaceholderText(_, options) => options,
            By::DisplayValue(_, options) => options,
            By::AltText(_, options) => options,
            By::Title(_, options) => options,
            By::TestId(_, options) => options,
        }
    }

    /// Whether the attached options, if any, are of this selector's own
    /// kind.
    pub open spec fn spec_options_match_kind(self) -> bool {
        match self {
            By::Role(_, o) => o is None || o->0 is Role,
            By::Text(_, o) => o is None || o->0 is Text,
            By::LabelText(_, o) => o is None || o->0 is LabelText,
            By::PlaceholderText(_, o) => o is None || o->0 is PlaceholderText,
            By::DisplayValue(_, o) => o is None || o->0 is DisplayValue,
            By::AltText(_, o) => o is None || o->0 is AltText,
            By::Title(_, o) => o is None || o->0 is Title,
            By::TestId(_, o) => o is None || o->0 is TestId,
        }
    }

    /// The function suffix for the injected library's method name.
    pub fn function_suffix(&self) -> (r: &str)
        ensures
            r@ == self.spec_function_suffix(),
    {
        match self {
            By::Role(_, _) => "Role",
            By::Text(_, _) => "Text",
            By::LabelText(_, _) => "LabelText",
            By::PlaceholderText(_, _) => "PlaceholderText",
            By::DisplayValue(_, _) => "DisplayValue",
            By::AltText(_, _) => "AltText",
            By::Title(_, _) => "Title",
            By::TestId(_, _) => "TestId",
        }
    }

    /// The selector value (text, role, etc.).
    pub fn value(&self) -> (r: &str)
        ensures
            r@ == self.spec_value(),
    {
        match self {
            By::Role(value, _) => value.as_str(),
            By::Text(value, _) => value.as_str(),
            By::LabelText(value, _) => value.as_str(),
            By::PlaceholderText(value, _) => value.as_str(),
            By::DisplayValue(value, _) => value.as_str(),
            By::AltText(value, _) => value.as_str(),
            By::Title(value, _) => value.as_str(),
            By::TestId(value, _) => value.as_str(),
        }
    }

    /// The attached options, if any.
    pub fn options(&self) -> (r: &Option<Options>)
        ensures
            *r == self.spec_options(),
    {
        match self {
            By::Role(_, options) => options,
            By::Text(_, options) => options,
            By::LabelText(_, options) => options,
            By::PlaceholderText(_, options) => options,
            By::DisplayValue(_, options) => options,
            By::AltText(_, options) => options,
            By::TestId(_, options) => options,
            By::Title(_, options) => options,
        }
    }

    /// The serialized options as a JSON string, with marker post-processing
    /// applied, or nothing when no options were attached.
    pub fn options_json(&self) -> (r: Option<String>)
        ensures
            match self.spec_options() {
                Some(o) => r matches Some(s) && s@ == spec_process(o.spec_json_marked()),
                None => r is None,
            },
    {
        match self.options() {
            Some(options) => Some(options.to_json_string()),
            None => None,
        }
    }
}

/// Fluent builder for role-based queries.
#[derive(Debug, Clone)]
pub struct RoleSelector {
    /// The role value to match
    pub value: String,
    /// The option set accumulated so far
    pub options: ByRoleOptions,
}

impl RoleSelector {
    /// The role value carried by the builder.
    pub open spec fn spec_value(self) -> Seq<char> {
        self.value@
    }

    /// The option set accumulated so far.
    pub open spec fn spec_options(self) -> ByRoleOptions {
        self.options
    }

    /// The selector this builder stands for: the option set is attached
    /// only when a field was set, so the rendered script omits the options
    /// argument for an all-unset set.
    pub open spec fn spec_to_by(self) -> By {
        if self.options == ByRoleOptions::spec_empty() {
            By::Role(self.value, None)
        } else {
            By::Role(self.value, Some(Options::Role(self.options)))
        }
    }

    /// Create a new builder with the given role value and no options.
    pub fn new(value: &str) -> (r: Self)
        ensures
            r.spec_value() == value@,
            r.spec_options() == ByRoleOptions::spec_empty(),
    {
        RoleSelector { value: String::from_str(value), options: ByRoleOptions::new() }
    }

    /// Include elements normally excluded from the accessibility tree.
    pub fn hidden(self, hidden: bool) -> (r: Self)
        ensures
            r.spec_value() == self.spec_value(),
            r.spec_options() == (ByRoleOptions { hidden: Some(hidden), ..self.spec_options() }),
    {
        RoleSelector { value: self.value, options: self.options.hidden(hidden) }
    }

    /// Filter by accessible name. Strings with the regex-literal shape are
    /// detected and matched as regular expressions.
    pub fn name(self, name: &str) -> (r: Self)
        ensures
            r.spec_value() == self.spec_value(),
            r.spec_options().name matches Some(t) && t.spec_text() == name@ && (t is Regex
                <==> crate::text_match::spec_is_regex_shape(name@)),
            r.spec_options() == (ByRoleOptions { name: r.spec_options().name, ..self.spec_options() }),
    {
        RoleSelector { value: self.value, options: self.options.name(TextMatch::from(name)) }
    }

    /// Filter by accessible description. Strings with the regex-literal
    /// shape are detected and matched as regular expressions.
    pub fn description(self, description: &str) -> (r: Self)
        ensures
            r.spec_value() == self.spec_value(),
            r.spec_options().description matches Some(t) && t.spec_text() == description@ && (t
                is Regex <==> crate::text_match::spec_is_regex_shape(description@)),
            r.spec_options() == (ByRoleOptions {
                description: r.spec_options().description,
                ..self.spec_options()
            }),
    {
        RoleSelector {
            value: self.value,
            options: self.options.description(TextMatch::from(description)),
        }
    }

    /// Filter by selected state (aria-selected).
    pub fn selected(self, selected: bool) -> (r: Self)
        ensures
            r.spec_value() == self.spec_value(),
            r.spec_options() == (ByRoleOptions { selected: Some(selected), ..self.spec_options() }),
    {
        RoleSelector { value: self.value, options: self.options.selected(selected) }
    }

    /// Filter by busy state (aria-busy).
    pub fn busy(self, busy: bool) -> (r: Self)
        ensures
            r.spec_value() == self.spec_value(),
            r.spec_options() == (ByRoleOptions { busy: Some(busy), ..self.spec_options() }),
    {
        RoleSelector { value: self.value, options: self.options.busy(busy) }
    }

    /// Filter by checked state (aria-checked).
    pub fn checked(self, checked: bool) -> (r: Self)
        ensures
            r.spec_value() == self.spec_value(),
            r.spec_options() == (ByRoleOptions { checked: Some(checked), ..self.spec_options() }),
    {
        RoleSelector { value: self.value, options: self.options.checked(checked) }
    }

    /// Filter by pressed state (aria-pressed).
    pub fn pressed(self, pressed: bool) -> (r: Self)
        ensures
            r.spec_value() == self.spec_value(),
            r.spec_options() == (ByRoleOptions { pressed: Some(pressed), ..self.spec_options() }),
    {
        RoleSelector { value: self.value, options: self.options.pressed(pressed) }
    }

    /// Enable or disable query suggestions.
    pub fn suggest(self, suggest: bool) -> (r: Self)
        ensures
            r.spec_value() == self.spec_value(),
            r.spec_options() == (ByRoleOptions { suggest: Some(suggest), ..self.spec_options() }),
    {
        RoleSelector { value: self.value, options: self.options.suggest(suggest) }
    }

    /// Filter by current state (aria-current).
    pub fn current(self, current: CurrentState) -> (r: Self)
        ensures
            r.spec_value() == self.spec_value(),
            r.spec_options() == (ByRoleOptions { current: Some(current), ..self.spec_options() }),
    {
        RoleSelector { value: self.value, options: self.options.current(current) }
    }

    /// Filter by expanded state (aria-expanded).
    pub fn expanded(self, expanded: bool) -> (r: Self)
        ensures
            r.spec_value() == self.spec_value(),
            r.spec_options() == (ByRoleOptions { expanded: Some(expanded), ..self.spec_options() }),
    {
        RoleSelector { value: self.value, options: self.options.expanded(expanded) }
    }

    /// Enable querying fallback roles.
    pub fn query_fallbacks(self, query_fallbacks: bool) -> (r: Self)
        ensures
            r.spec_value() == self.spec_value(),
            r.spec_options() == (ByRoleOptions {
                query_fallbacks: Some(query_fallbacks),
                ..self.spec_options()
            }),
    {
        RoleSelector { value: self.value, options: self.options.query_fallbacks(query_fallbacks) }
    }

    /// Filter by heading level (only for the heading role).
    pub fn level(self, level: u8) -> (r: Self)
        ensures
            r.spec_value() == self.spec_value(),
            r.spec_options() == (ByRoleOptions { level: Some(level), ..self.spec_options() }),
    {
        RoleSelector { value: self.value, options: self.options.level(level) }
    }

    /// Filter by value properties (only for range widgets).
    pub fn value(self, value: ValueOptions) -> (r: Self)
        ensures
            r.spec_value() == self.spec_value(),
            r.spec_options() == (ByRoleOptions { value: Some(value), ..self.spec_options() }),
    {
        RoleSelector { value: self.value, options: self.options.value(value) }
    }
}

impl From<RoleSelector> for By {
    /// A role builder becomes a role selector; the option set is attached
    /// only when a field was set, so an all-unset set is omitted from the
    /// rendered script.
    fn from(selector: RoleSelector) -> (r: By) {
        if selector.options.is_unset() {
            By::Role(selector.value, None)
        } else {
            By::Role(selector.value, Some(Options::Role(selector.options)))
        }
    }
}

impl vstd::std_specs::convert::FromSpecImpl<RoleSelector> for By {
    open spec fn obeys_from_spec() -> bool {
        true
    }

    open spec fn from_spec(s: RoleSelector) -> By {
        s.spec_to_by()
    }
}

/// The kind tag of a simple selector.
#[derive(Debug, Clone)]
pub enum SimpleSelectorType {
    Text,
    AltText,
    DisplayValue,
    PlaceholderText,
    TestId,
    Title,
}

/// Fluent builder for the query kinds that only support exact matching.
#[derive(Debug, Clone)]
pub struct SimpleSelector {
    /// The value to match
    pub value: String,
    /// The query kind this builder belongs to
    pub selector_type: SimpleSelectorType,
    /// The option set accumulated so far
    pub options: SimpleOptions,
}

impl SimpleSelector {
    /// The match value carried by the builder.
    pub open spec fn spec_value(self) -> Seq<char> {
        self.value@
    }

    /// The option set accumulated so far.
    pub open spec fn spec_options(self) -> SimpleOptions {
        self.options
    }

    /// The selector this builder stands for: its kind's variant, with the
    /// option set attached only when a field was set.
    pub open spec fn spec_to_by(self) -> By {
        let options = if self.options.exact is Some {
            Some(
                match self.selector_type {
                    SimpleSelectorType::Text => Options::Text(self.options),
                    SimpleSelectorType::AltText => Options::AltText(self.options),
                    SimpleSelectorType::DisplayValue => Options::DisplayValue(self.options),
                    SimpleSelectorType::PlaceholderText => Options::PlaceholderText(self.options),
                    SimpleSelectorType::TestId => Options::TestId(self.options),
                    SimpleSelectorType::Title => Options::Title(self.options),
                },
            )
        } else {
            None
        };
        match self.selector_type {
            SimpleSelectorType::Text => By::Text(self.value, options),
            SimpleSelectorType::AltText => By::AltText(self.value, options),
            SimpleSelectorType::DisplayValue => By::DisplayValue(self.value, options),
            SimpleSelectorType::PlaceholderText => By::PlaceholderText(self.value, options),
            SimpleSelectorType::TestId => By::TestId(self.value, options),
            SimpleSelectorType::Title => By::Title(self.value, options),
        }
    }

    /// Create a new builder with the given value and kind.
    fn new(value: &str, selector_type: SimpleSelectorType) -> (r: Self)
        ensures
            r.spec_value() == value@,
            r.spec_options().exact is None,
            r.selector_type == selector_type,
    {
        SimpleSelector {
            value: String::from_str(value),
            selector_type,
            options: SimpleOptions::new(),
        }
    }

    /// Set the exact option: whether to use exact text matching.
    pub fn exact(self, exact: bool) -> (r: Self)
        ensures
            r.spec_value() == self.spec_value(),
            r.selector_type == self.selector_type,
            r.spec_options().exact == Some(exact),
    {
        SimpleSelector {
            value: self.value,
            selector_type: self.selector_type,
            options: self.options.exact(exact),
        }
    }
}

impl From<SimpleSelector> for By {
    /// A simple builder becomes the selector of its kind; the option set is
    /// attached only when a field was set.
    fn from(selector: SimpleSelector) -> (r: By) {
        let options = if selector.options.exact.is_some() {
            Some(
                match selector.selector_type {
                    SimpleSelectorType::Text => Options::Text(selector.options),
                    SimpleSelectorType::AltText => Options::AltText(selector.options),
                    SimpleSelectorType::DisplayValue => Options::DisplayValue(selector.options),
                    SimpleSelectorType::PlaceholderText => Options::PlaceholderText(
                        selector.options,
                    ),
                    SimpleSelectorType::TestId => Options::TestId(selector.options),
                    SimpleSelectorType::Title => Options::Title(selector.options),
                },
            )
        } else {
            None
        };
        match selector.selector_type {
            SimpleSelectorType::Text => By::Text(selector.value, options),
            SimpleSelectorType::AltText => By::AltText(selector.value, options),
            SimpleSelectorType::DisplayValue => By::DisplayValue(selector.value, options),
            SimpleSelectorType::PlaceholderText => By::PlaceholderText(selector.value, options),
            SimpleSelectorType::TestId => By::TestId(selector.value, options),
            SimpleSelectorType::Title => By::Title(selector.value, options),
        }
    }
}

impl vstd::std_specs::convert::FromSpecImpl<SimpleSelector> for By {
    open spec fn obeys_from_spec() -> bool {
        true
    }

    open spec fn from_spec(s: SimpleSelector) -> By {
        s.spec_to_by()
    }
}

/// Fluent builder for label text queries.
#[derive(Debug, Clone)]
pub struct LabelTextSelector {
    /// The label text to match
    pub value: String,
    /// The option set accumulated so far
    pub options: ByLabelTextOptions,
}

impl LabelTextSelector {
    /// The label text carried by the builder.
    pub open spec fn spec_value(self) -> Seq<char> {
        self.value@
    }

    /// The option set accumulated so far.
    pub open spec fn spec_options(self) -> ByLabelTextOptions {
        self.options
    }

    /// The selector this builder stands for: the option set is attached only
    /// when a field was set.
    pub open spec fn spec_to_by(self) -> By {
        let options = if self.options.selector is Some || self.options.exact is Some {
            Some(Options::LabelText(self.options))
        } else {
            None
        };
        By::LabelText(self.value, options)
    }

    /// Create a new builder with the given label text and no options.
    pub fn new(value: &str) -> (r: Self)
        ensures
            r.spec_value() == value@,
            r.spec_options().selector is None,
            r.spec_options().exact is None,
    {
        LabelTextSelector { value: String::from_str(value), options: ByLabelTextOptions::new() }
    }

    /// Set the selector option: a CSS selector narrowing candidate elements.
    pub fn selector(self, selector: &str) -> (r: Self)
        ensures
            r.spec_value() == self.spec_value(),
            r.spec_options().selector matches Some(s) && s@ == selector@,
            r.spec_options().exact == self.spec_options().exact,
    {
        LabelTextSelector { value: self.value, options: self.options.selector(selector) }
    }

    /// Set the exact option: whether to use exact text matching.
    pub fn exact(self, exact: bool) -> (r: Self)
        ensures
            r.spec_value() == self.spec_value(),
            r.spec_options().selector == self.spec_options().selector,
            r.spec_options().exact == Some(exact),
    {
        LabelTextSelector { value: self.value, options: self.options.exact(exact) }
    }
}

impl From<LabelTextSelector> for By {
    /// A label text builder becomes a label text selector; the option set is
    /// attached only when a field was set.
    fn from(selector: LabelTextSelector) -> (r: By) {
        let options = if selector.options.selector.is_some() || selector.options.exact.is_some() {
            Some(Options::LabelText(selector.options))
        } else {
            None
        };
        By::LabelText(selector.value, options)
    }
}

impl vstd::std_specs::convert::FromSpecImpl<LabelTextSelector> for By {
    open spec fn obeys_from_spec() -> bool {
        true
    }

    open spec fn from_spec(s: LabelTextSelector) -> By {
        s.spec_to_by()
    }
}

impl By {
    /// Create a role selector builder.
    pub fn role(value: &str) -> (r: RoleSelector)
        ensures
            r.spec_value() == value@,
            r.spec_options() == ByRoleOptions::spec_empty(),
            r.spec_to_by() matches By::Role(v, o) && v@ == value@ && o is None,
    {
        RoleSelector::new(value)
    }

    /// Create a text selector builder.
    pub fn text(value: &str) -> (r: SimpleSelector)
        ensures
            r.spec_value() == value@,
            r.spec_options().exact is None,
            r.spec_to_by() matches By::Text(v, o) && v@ == value@ && o is None,
    {
        SimpleSelector::new(value, SimpleSelectorType::Text)
    }

    /// Create a label text selector builder.
    pub fn label_text(value: &str) -> (r: LabelTextSelector)
        ensures
            r.spec_value() == value@,
            r.spec_options().selector is None,
            r.spec_options().exact is None,
    {
        LabelTextSelector::new(value)
    }

    /// Create a placeholder text selector builder.
    pub fn placeholder_text(value: &str) -> (r: SimpleSelector)
        ensures
            r.spec_value() == value@,
            r.spec_options().exact is None,
            r.spec_to_by() matches By::PlaceholderText(v, o) && v@ == value@ && o is None,
    {
        SimpleSelector::new(value, SimpleSelectorType::PlaceholderText)
    }

    /// Create a display value selector builder.
    pub fn display_value(value: &str) -> (r: SimpleSelector)
        ensures
            r.spec_value() == value@,
            r.spec_options().exact is None,
            r.spec_to_by() matches By::DisplayValue(v, o) && v@ == value@ && o is None,
    {
        SimpleSelector::new(value, SimpleSelectorType::DisplayValue)
    }

    /// Create an alt text selector builder.
    pub fn alt_text(value: &str) -> (r: SimpleSelector)
        ensures
            r.spec_value() == value@,
            r.spec_options().exact is None,
            r.spec_to_by() matches By::AltText(v, o) && v@ == value@ && o is None,
    {
        SimpleSelector::new(value, SimpleSelectorType::AltText)
    }

    /// Create a title selector builder.
    pub fn title(value: &str) -> (r: SimpleSelector)
        ensures
            r.spec_value() == value@,
            r.spec_options().exact is None,
            r.spec_to_by() matches By::Title(v, o) && v@ == value@ && o is None,
    {
        SimpleSelector::new(value, SimpleSelectorType::Title)
    }

    /// Create a test ID selector builder.
    pub fn test_id(value: &str) -> (r: SimpleSelector)
        ensures
            r.spec_value() == value@,
            r.spec_options().exact is None,
            r.spec_to_by() matches By::TestId(v, o) && v@ == value@ && o is None,
    {
        SimpleSelector::new(value, SimpleSelectorType::TestId)
    }
}


/// A selector built through a role builder carries only role options.
pub proof fn lemma_role_builder_options_match_kind(s: RoleSelector)
    ensures
        s.spec_to_by().spec_options_match_kind(),
{
}

/// A selector built through a simple builder carries only options of its
/// own kind.
pub proof fn lemma_simple_builder_options_match_kind(s: SimpleSelector)
    ensures
        s.spec_to_by().spec_options_match_kind(),
{
}

/// A selector built through a label text builder carries only label text
/// options.
pub proof fn lemma_label_text_builder_options_match_kind(s: LabelTextSelector)
    ensures
        s.spec_to_by().spec_options_match_kind(),
{
}

} // verus!
