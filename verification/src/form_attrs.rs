//! The `#[form(...)]` attributes of a form field or variant: which keyword
//! sets which option, and which entries are refused. The attribute syntax is
//! read by the form derive; this module decides what the entries mean.

use vstd::prelude::*;

use crate::text::str_eq;

verus! {

/// The value written after a `#[form(...)]` keyword.
pub enum FormAttrValue {
    /// No value (`required`).
    Flag,
    /// A string literal (`label = "Name"`).
    Str(String),
    /// An integer literal (`rows = 4`).
    Int(u64),
    /// A path (`widget = Select`).
    Path(String),
    /// Any other expression.
    Other,
}

/// One `key` or `key = value` entry of a `#[form(...)]` attribute.
pub struct FormAttrEntry {
    pub key: String,
    pub value: FormAttrValue,
}

/// Where a field hint comes from.
#[derive(Debug, Clone, PartialEq, Eq)]
pub enum HintSource {
    /// A string literal.
    Lit(String),
    /// A path to a `&'static str`.
    Path(String),
}

/// Why a `#[form(...)]` entry is refused.
#[derive(Debug, Clone, Copy, PartialEq, Eq, Structural)]
pub enum FormAttrError {
    /// The keyword is not a form option.
    Unsupported,
    /// A flag was given a value.
    UnexpectedValue,
    /// A value was expected and is missing or of the wrong kind.
    ExpectedValue,
    /// `rows` is past `u32`.
    RowsTooLarge,
    /// `hint` is neither a string literal nor a path.
    BadHint,
}

impl FormAttrError {
    /// Whether this is a refusal the derive words itself: an unsupported
    /// keyword or a hint of the wrong kind.
    pub open spec fn has_own_message(self) -> bool {
        self is Unsupported || self is BadHint
    }

    /// The message of an unsupported keyword or a bad hint.
    pub fn message(&self) -> (r: &'static str)
        requires
            self.has_own_message(),
        ensures
            self is Unsupported ==> r@ == "unsupported form attribute"@,
            self is BadHint ==> r@ == "hint expects a string literal or path to a &'static str"@,
    {
        match self {
            FormAttrError::Unsupported => "unsupported form attribute",
            _ => "hint expects a string literal or path to a &'static str",
        }
    }
}

/// The keywords of `#[form(...)]`.
#[derive(Debug, Clone, Copy, PartialEq, Eq, Structural)]
pub enum FormKey {
    Label,
    Name,
    Widget,
    Required,
    Multiple,
    SkipDeser,
    Url,
    SwapKey,
    Display,
    Error,
    Choices,
    When,
    RequiredUnless,
    Model,
    Show,
    Placeholder,
    Accept,
    Row,
    Rows,
    Hint,
    Route,
}

/// The keyword a key text names, if any.
pub open spec fn key_of(k: Seq<char>) -> Option<FormKey> {
    if k == "label"@ {
        Some(FormKey::Label)
    } else if k == "name"@ {
        Some(FormKey::Name)
    } else if k == "widget"@ {
        Some(FormKey::Widget)
    } else if k == "required"@ {
        Some(FormKey::Required)
    } else if k == "multiple"@ {
        Some(FormKey::Multiple)
    } else if k == "skip_deser"@ {
        Some(FormKey::SkipDeser)
    } else if k == "url"@ {
        Some(FormKey::Url)
    } else if k == "swap_key"@ {
        Some(FormKey::SwapKey)
    } else if k == "display"@ {
        Some(FormKey::Display)
    } else if k == "error"@ {
        Some(FormKey::Error)
    } else if k == "choices"@ {
        Some(FormKey::Choices)
    } else if k == "when"@ {
        Some(FormKey::When)
    } else if k == "required_unless"@ {
        Some(FormKey::RequiredUnless)
    } else if k == "model"@ {
        Some(FormKey::Model)
    } else if k == "show"@ {
        Some(FormKey::Show)
    } else if k == "placeholder"@ {
        Some(FormKey::Placeholder)
    } else if k == "accept"@ {
        Some(FormKey::Accept)
    } else if k == "row"@ {
        Some(FormKey::Row)
    } else if k == "rows"@ {
        Some(FormKey::Rows)
    } else if k == "hint"@ {
        Some(FormKey::Hint)
    } else if k == "route"@ {
        Some(FormKey::Route)
    } else {
        None
    }
}

/// The keyword a key text names, if any.
pub fn form_key_of(k: &str) -> (r: Option<FormKey>)
    ensures
        r == key_of(k@),
{
    if str_eq(k, "label") {
        Some(FormKey::Label)
    } else if str_eq(k, "name") {
        Some(FormKey::Name)
    } else if str_eq(k, "widget") {
        Some(FormKey::Widget)
    } else if str_eq(k, "required") {
        Some(FormKey::Required)
    } else if str_eq(k, "multiple") {
        Some(FormKey::Multiple)
    } else if str_eq(k, "skip_deser") {
        Some(FormKey::SkipDeser)
    } else if str_eq(k, "url") {
        Some(FormKey::Url)
    } else if str_eq(k, "swap_key") {
        Some(FormKey::SwapKey)
    } else if str_eq(k, "display") {
        Some(FormKey::Display)
    } else if str_eq(k, "error") {
        Some(FormKey::Error)
    } else if str_eq(k, "choices") {
        Some(FormKey::Choices)
    } else if str_eq(k, "when") {
        Some(FormKey::When)
    } else if str_eq(k, "required_unless") {
        Some(FormKey::RequiredUnless)
    } else if str_eq(k, "model") {
        Some(FormKey::Model)
    } else if str_eq(k, "show") {
        Some(FormKey::Show)
    } else if str_eq(k, "placeholder") {
        Some(FormKey::Placeholder)
    } else if str_eq(k, "accept") {
        Some(FormKey::Accept)
    } else if str_eq(k, "row") {
        Some(FormKey::Row)
    } else if str_eq(k, "rows") {
        Some(FormKey::Rows)
    } else if str_eq(k, "hint") {
        Some(FormKey::Hint)
    } else if str_eq(k, "route") {
        Some(FormKey::Route)
    } else {
        None
    }
}

/// Keywords that take a string literal.
pub open spec fn is_str_key(k: FormKey) -> bool {
    k is Label || k is Name || k is Url || k is SwapKey || k is Display || k is Error || k is Choices || k is When || k is RequiredUnless || k is Model || k is Show || k is Placeholder || k is Accept || k is Row
}

/// Keywords that take a path.
pub open spec fn is_path_key(k: FormKey) -> bool {
    k is Widget || k is Route
}

/// Keywords that are flags.
pub open spec fn is_flag_key(k: FormKey) -> bool {
    k is Required || k is Multiple || k is SkipDeser
}

/// What is wrong with one entry, if anything.
pub open spec fn entry_error(e: FormAttrEntry) -> Option<FormAttrError> {
    match key_of(e.key@) {
        None => Some(FormAttrError::Unsupported),
        Some(k) => if is_flag_key(k) {
            if e.value is Flag { None } else { Some(FormAttrError::UnexpectedValue) }
        } else if is_str_key(k) {
            if e.value is Str { None } else { Some(FormAttrError::ExpectedValue) }
        } else if is_path_key(k) {
            if e.value is Path { None } else { Some(FormAttrError::ExpectedValue) }
        } else if k is Rows {
            match e.value {
                FormAttrValue::Int(n) => if n <= u32::MAX { None } else { Some(FormAttrError::RowsTooLarge) },
                _ => Some(FormAttrError::ExpectedValue),
            }
        } else {
            match e.value {
                FormAttrValue::Str(_) => None,
                FormAttrValue::Path(_) => None,
                FormAttrValue::Flag => Some(FormAttrError::ExpectedValue),
                _ => Some(FormAttrError::BadHint),
            }
        },
    }
}

/// The error of the first refused entry, if any.
pub open spec fn first_error(es: Seq<FormAttrEntry>) -> Option<FormAttrError>
    decreases es.len(),
{
    if es.len() == 0 {
        None
    } else {
        match first_error(es.drop_last()) {
            Some(err) => Some(err),
            None => entry_error(es.last()),
        }
    }
}

/// The text or path of an entry's value.
pub open spec fn value_text(v: FormAttrValue) -> Option<Seq<char>> {
    match v {
        FormAttrValue::Str(s) => Some(s@),
        FormAttrValue::Path(p) => Some(p@),
        _ => None,
    }
}

/// The text or path of the last entry for `key`.
pub open spec fn last_text(es: Seq<FormAttrEntry>, key: FormKey) -> Option<Seq<char>>
    decreases es.len(),
{
    if es.len() == 0 {
        None
    } else if key_of(es.last().key@) == Some(key) {
        value_text(es.last().value)
    } else {
        last_text(es.drop_last(), key)
    }
}

/// Whether an entry for `key` occurs.
pub open spec fn has_flag(es: Seq<FormAttrEntry>, key: FormKey) -> bool {
    exists|i: int| 0 <= i < es.len() && key_of(es[i].key@) == Some(key)
}

/// The last `rows` value.
pub open spec fn last_rows(es: Seq<FormAttrEntry>) -> Option<u64>
    decreases es.len(),
{
    if es.len() == 0 {
        None
    } else if key_of(es.last().key@) == Some(FormKey::Rows) {
        match es.last().value {
            FormAttrValue::Int(n) => Some(n),
            _ => None,
        }
    } else {
        last_rows(es.drop_last())
    }
}

/// A hint value: a literal (`true`) or a path (`false`), and its text.
pub open spec fn hint_of(v: FormAttrValue) -> Option<(bool, Seq<char>)> {
    match v {
        FormAttrValue::Str(s) => Some((true, s@)),
        FormAttrValue::Path(p) => Some((false, p@)),
        _ => None,
    }
}

/// The last hint.
pub open spec fn last_hint(es: Seq<FormAttrEntry>) -> Option<(bool, Seq<char>)>
    decreases es.len(),
{
    if es.len() == 0 {
        None
    } else if key_of(es.last().key@) == Some(FormKey::Hint) {
        hint_of(es.last().value)
    } else {
        last_hint(es.drop_last())
    }
}

/// The view of an optional owned text.
pub open spec fn text_view(o: Option<String>) -> Option<Seq<char>> {
    match o {
        Some(s) => Some(s@),
        None => None,
    }
}

/// The view of an optional hint.
pub open spec fn hint_view(h: Option<HintSource>) -> Option<(bool, Seq<char>)> {
    match h {
        Some(HintSource::Lit(s)) => Some((true, s@)),
        Some(HintSource::Path(p)) => Some((false, p@)),
        None => None,
    }
}

/// The options of a form field or variant.
pub struct FormAttrs {
    pub label: Option<String>,
    pub name: Option<String>,
    pub widget: Option<String>,
    pub required: bool,
    pub multiple: bool,
    pub skip_deser: bool,
    pub url: Option<String>,
    pub swap_key: Option<String>,
    pub display: Option<String>,
    pub error: Option<String>,
    pub choices: Option<String>,
    pub when: Option<String>,
    pub required_unless: Option<String>,
    pub model: Option<String>,
    pub show: Option<String>,
    pub placeholder: Option<String>,
    pub accept: Option<String>,
    pub row: Option<String>,
    pub rows: Option<u32>,
    pub hint: Option<HintSource>,
    pub route: Option<String>,
}

/// `a` holds, option by option, what the entries `es` set: the last value of
/// each keyword, and every flag that occurs.
pub open spec fn attrs_match(a: FormAttrs, es: Seq<FormAttrEntry>) -> bool {
    &&& text_view(a.label) == last_text(es, FormKey::Label)
    &&& text_view(a.name) == last_text(es, FormKey::Name)
    &&& text_view(a.widget) == last_text(es, FormKey::Widget)
    &&& text_view(a.url) == last_text(es, FormKey::Url)
    &&& text_view(a.swap_key) == last_text(es, FormKey::SwapKey)
    &&& text_view(a.display) == last_text(es, FormKey::Display)
    &&& text_view(a.error) == last_text(es, FormKey::Error)
    &&& text_view(a.choices) == last_text(es, FormKey::Choices)
    &&& text_view(a.when) == last_text(es, FormKey::When)
    &&& text_view(a.required_unless) == last_text(es, FormKey::RequiredUnless)
    &&& text_view(a.model) == last_text(es, FormKey::Model)
    &&& text_view(a.show) == last_text(es, FormKey::Show)
    &&& text_view(a.placeholder) == last_text(es, FormKey::Placeholder)
    &&& text_view(a.accept) == last_text(es, FormKey::Accept)
    &&& text_view(a.row) == last_text(es, FormKey::Row)
    &&& text_view(a.route) == last_text(es, FormKey::Route)
    &&& a.required == has_flag(es, FormKey::Required)
    &&& a.multiple == has_flag(es, FormKey::Multiple)
    &&& a.skip_deser == has_flag(es, FormKey::SkipDeser)
    &&& (match a.rows {
        Some(n) => last_rows(es) == Some(n as u64),
        None => last_rows(es) is None,
    })
    &&& hint_view(a.hint) == last_hint(es)
}

/// No options set.
pub fn form_attrs_default() -> (r: FormAttrs)
    ensures
        attrs_match(r, Seq::empty()),
{
    FormAttrs {
        label: None,
        name: None,
        widget: None,
        required: false,
        multiple: false,
        skip_deser: false,
        url: None,
        swap_key: None,
        display: None,
        error: None,
        choices: None,
        when: None,
        required_unless: None,
        model: None,
        show: None,
        placeholder: None,
        accept: None,
        row: None,
        rows: None,
        hint: None,
        route: None,
    }
}

/// What one more entry changes: only what its own keyword sets.
proof fn lemma_push_entry(es: Seq<FormAttrEntry>, e: FormAttrEntry)
    ensures
        forall|k: FormKey|
            #[trigger] last_text(es.push(e), k) == (if key_of(e.key@) == Some(k) {
                value_text(e.value)
            } else {
                last_text(es, k)
            }),
        forall|k: FormKey| #[trigger] has_flag(es.push(e), k) == (key_of(e.key@) == Some(k) || has_flag(es, k)),
        last_rows(es.push(e)) == (if key_of(e.key@) == Some(FormKey::Rows) {
            match e.value {
                FormAttrValue::Int(n) => Some(n),
                _ => None,
            }
        } else {
            last_rows(es)
        }),
        last_hint(es.push(e)) == (if key_of(e.key@) == Some(FormKey::Hint) {
            hint_of(e.value)
        } else {
            last_hint(es)
        }),
{
    let es2 = es.push(e);
    assert(es2.drop_last() == es);
    assert(es2.last() == e);
    assert forall|k: FormKey| #[trigger] has_flag(es2, k) == (key_of(e.key@) == Some(k) || has_flag(es, k)) by {
        if has_flag(es2, k) {
            let i = choose|i: int| 0 <= i < es2.len() && key_of(es2[i].key@) == Some(k);
            if i < es.len() {
                assert(es[i] == es2[i]);
            }
        }
        if has_flag(es, k) {
            let i = choose|i: int| 0 <= i < es.len() && key_of(es[i].key@) == Some(k);
            assert(es2[i] == es[i]);
        }
        if key_of(e.key@) == Some(k) {
            assert(es2[es.len() as int] == e);
        }
    }
}

fn value_text_exec(value: &FormAttrValue) -> (r: Option<String>)
    ensures
        text_view(r) == value_text(*value),
{
    match value {
        FormAttrValue::Str(s) => Some(s.clone()),
        FormAttrValue::Path(p) => Some(p.clone()),
        _ => None,
    }
}

/// Apply one entry that [`entry_error`] accepts.
fn apply_entry(a: &mut FormAttrs, e: &FormAttrEntry, ghost_es: Ghost<Seq<FormAttrEntry>>)
    requires
        attrs_match(*old(a), ghost_es@),
        entry_error(*e) is None,
    ensures
        attrs_match(*final(a), ghost_es@.push(*e)),
{
    proof {
        lemma_push_entry(ghost_es@, *e);
    }
    let key = form_key_of(e.key.as_str());
    match key {
        Some(FormKey::Label) => {
            a.label = value_text_exec(&e.value);
        },
        Some(FormKey::Name) => {
            a.name = value_text_exec(&e.value);
        },
        Some(FormKey::Widget) => {
            a.widget = value_text_exec(&e.value);
        },
        Some(FormKey::Url) => {
            a.url = value_text_exec(&e.value);
        },
        Some(FormKey::SwapKey) => {
            a.swap_key = value_text_exec(&e.value);
        },
        Some(FormKey::Display) => {
            a.display = value_text_exec(&e.value);
        },
        Some(FormKey::Error) => {
            a.error = value_text_exec(&e.value);
        },
        Some(FormKey::Choices) => {
            a.choices = value_text_exec(&e.value);
        },
        Some(FormKey::When) => {
            a.when = value_text_exec(&e.value);
        },
        Some(FormKey::RequiredUnless) => {
            a.required_unless = value_text_exec(&e.value);
        },
        Some(FormKey::Model) => {
            a.model = value_text_exec(&e.value);
        },
        Some(FormKey::Show) => {
            a.show = value_text_exec(&e.value);
        },
        Some(FormKey::Placeholder) => {
            a.placeholder = value_text_exec(&e.value);
        },
        Some(FormKey::Accept) => {
            a.accept = value_text_exec(&e.value);
        },
        Some(FormKey::Row) => {
            a.row = value_text_exec(&e.value);
        },
        Some(FormKey::Route) => {
            a.route = value_text_exec(&e.value);
        },
        Some(FormKey::Required) => {
            a.required = true;
        },
        Some(FormKey::Multiple) => {
            a.multiple = true;
        },
        Some(FormKey::SkipDeser) => {
            a.skip_deser = true;
        },
        Some(FormKey::Rows) => {
            match e.value {
                FormAttrValue::Int(n) => {
                    a.rows = Some(n as u32);
                },
                _ => {},
            }
        },
        Some(FormKey::Hint) => {
            a.hint = match &e.value {
                FormAttrValue::Str(s) => Some(HintSource::Lit(s.clone())),
                FormAttrValue::Path(p) => Some(HintSource::Path(p.clone())),
                _ => None,
            };
        },
        None => {},
    }
}

/// The refusal of one entry, if any.
pub fn check_entry(e: &FormAttrEntry) -> (r: Option<FormAttrError>)
    ensures
        r == entry_error(*e),
{
    match form_key_of(e.key.as_str()) {
        None => Some(FormAttrError::Unsupported),
        Some(k) => match k {
            FormKey::Required | FormKey::Multiple | FormKey::SkipDeser => match e.value {
                FormAttrValue::Flag => None,
                _ => Some(FormAttrError::UnexpectedValue),
            },
            FormKey::Widget | FormKey::Route => match e.value {
                FormAttrValue::Path(_) => None,
                _ => Some(FormAttrError::ExpectedValue),
            },
            FormKey::Rows => match e.value {
                FormAttrValue::Int(n) => if n <= 4294967295u64 {
                    None
                } else {
                    Some(FormAttrError::RowsTooLarge)
                },
                _ => Some(FormAttrError::ExpectedValue),
            },
            FormKey::Hint => match e.value {
                FormAttrValue::Str(_) => None,
                FormAttrValue::Path(_) => None,
                FormAttrValue::Flag => Some(FormAttrError::ExpectedValue),
                _ => Some(FormAttrError::BadHint),
            },
            _ => match e.value {
                FormAttrValue::Str(_) => None,
                _ => Some(FormAttrError::ExpectedValue),
            },
        },
    }
}

/// An error in a prefix is the error of the whole list.
proof fn lemma_first_error_prefix(es: Seq<FormAttrEntry>, n: int)
    requires
        0 <= n <= es.len(),
        first_error(es.take(n)) is Some,
    ensures
        first_error(es) == first_error(es.take(n)),
    decreases es.len() - n,
{
    if n < es.len() {
        assert(es.take(n + 1).drop_last() == es.take(n));
        lemma_first_error_prefix(es, n + 1);
    } else {
        assert(es.take(n) == es);
    }
}

/// Read the entries of a field's `#[form(...)]` attributes, in order: each
/// keyword sets its option (a later entry wins), and the first refused entry
/// is the error.
pub fn parse_form_attr_list(entries: &Vec<FormAttrEntry>) -> (r: Result<FormAttrs, FormAttrError>)
    ensures
        match r {
            Ok(a) => first_error(entries@) is None && attrs_match(a, entries@),
            Err(err) => first_error(entries@) == Some(err),
        },
{
    let mut a = form_attrs_default();
    let mut i: usize = 0;
    while i < entries.len()
        invariant
            i <= entries.len(),
            first_error(entries@.take(i as int)) is None,
            attrs_match(a, entries@.take(i as int)),
        decreases entries.len() - i,
    {
        let e = &entries[i];
        proof {
            assert(entries@.take(i + 1).drop_last() == entries@.take(i as int));
            assert(entries@.take(i + 1).last() == *e);
            assert(entries@.take(i as int).push(*e) == entries@.take(i + 1));
        }
        match check_entry(e) {
            Some(err) => {
                proof {
                    lemma_first_error_prefix(entries@, i + 1);
                }
                return Err(err);
            },
            None => {},
        }
        apply_entry(&mut a, e, Ghost(entries@.take(i as int)));
        i = i + 1;
    }
    assert(entries@.take(entries.len() as int) == entries@);
    Ok(a)
}

} // verus!
