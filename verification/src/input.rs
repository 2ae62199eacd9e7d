//! Presentational form inputs: each emits a labeled control with DaisyUI
//! classes. Attribute values written into the control are attribute-escaped;
//! wrapper classes and labels are HTML-escaped.

use vstd::prelude::*;

use crate::attrs::{render_entries, HtmlAttrs};
use crate::html::{escape_html, push_escaped_html};
use crate::text::{escape_attr_seq, push_escaped_attr, push_str, to_owned};

verus! {

/// Class of the `<label>` around a stacked control.
pub const LABEL_STACKED: &'static str = "label text-sm font-bold flex flex-col items-start gap-1";

/// ` required` when the control is required.
pub open spec fn required_text(required: bool) -> Seq<char> {
    if required { " required"@ } else { seq![] }
}

/// Append ` required` when asked.
fn push_required(out: &mut String, required: bool)
    ensures
        final(out)@ == old(out)@ + required_text(required),
{
    if required {
        push_str(out, " required");
    } else {
        assert(old(out)@ + Seq::<char>::empty() == old(out)@);
    }
}

/// `<div class="{wrap}"><label class="…">{label?}<input type=… name=… value=… class=…{required}{attrs}></label></div>`.
pub open spec fn labeled_input_spec(
    wrap: Seq<char>,
    label: Seq<char>,
    show_label: bool,
    input_type: Seq<char>,
    name: Seq<char>,
    value: Seq<char>,
    input_class: Seq<char>,
    required: bool,
    attrs: Seq<(Seq<char>, Seq<char>)>,
) -> Seq<char> {
    "<div class=\""@ + escape_html(wrap) + "\"><label class=\""@ + LABEL_STACKED@ + "\">"@ + (if show_label {
        escape_html(label)
    } else {
        seq![]
    }) + "<input type=\""@ + escape_attr_seq(input_type) + "\" name=\""@ + escape_attr_seq(name) + "\" value=\""@
        + escape_attr_seq(value) + "\" class=\""@ + escape_attr_seq(input_class) + "\""@ + required_text(required)
        + render_entries(attrs) + ">"@ + "</label></div>"@
}

/// A labeled single `<input>`.
fn labeled_input(
    wrap: &str,
    label: &str,
    show_label: bool,
    input_type: &str,
    name: &str,
    value: &str,
    input_class: &str,
    required: bool,
    attrs: &HtmlAttrs,
) -> (r: String)
    ensures
        r@ == labeled_input_spec(wrap@, label@, show_label, input_type@, name@, value@, input_class@, required, attrs@),
{
    let mut out = to_owned("<div class=\"");
    push_escaped_html(&mut out, wrap);
    push_str(&mut out, "\"><label class=\"");
    push_str(&mut out, LABEL_STACKED);
    push_str(&mut out, "\">");
    if show_label {
        push_escaped_html(&mut out, label);
    }
    let ghost mid = out@;
    push_str(&mut out, "<input type=\"");
    push_escaped_attr(&mut out, input_type);
    push_str(&mut out, "\" name=\"");
    push_escaped_attr(&mut out, name);
    push_str(&mut out, "\" value=\"");
    push_escaped_attr(&mut out, value);
    push_str(&mut out, "\" class=\"");
    push_escaped_attr(&mut out, input_class);
    push_str(&mut out, "\"");
    push_required(&mut out, required);
    let a = attrs.as_string();
    push_str(&mut out, a.as_str());
    push_str(&mut out, ">");
    push_str(&mut out, "</label></div>");
    proof {
        if !show_label {
            assert(mid == "<div class=\""@ + escape_html(wrap@) + "\"><label class=\""@ + LABEL_STACKED@ + "\">"@ + Seq::<char>::empty());
        }
    }
    out
}

/// `prefix` and `classes` separated by a space (`format!("{prefix} {classes}")`).
pub open spec fn spaced(prefix: Seq<char>, classes: Seq<char>) -> Seq<char> {
    prefix + seq![' '] + classes
}

/// `format!("{prefix} {classes}")`.
fn spaced_exec(prefix: &str, classes: &str) -> (r: String)
    ensures
        r@ == spaced(prefix@, classes@),
{
    let mut out = to_owned(prefix);
    crate::text::push_char(&mut out, ' ');
    push_str(&mut out, classes);
    out
}

/// The classes of a bordered text input.
pub open spec fn input_class_of(classes: Seq<char>) -> Seq<char> {
    spaced("input input-bordered w-full"@, classes)
}

/// Single-line text input (hidden mode for CSRF and extra fields).
pub struct InputText<'a> {
    pub label: &'a str,
    pub name: &'a str,
    pub value: &'a str,
    pub required: bool,
    pub hidden: bool,
    pub classes: &'a str,
    pub attrs: HtmlAttrs,
}

impl Default for InputText<'_> {
    fn default() -> (r: Self)
        ensures
            r.label@ == ""@,
            r.name@ == ""@,
            r.value@ == ""@,
            !r.required,
            !r.hidden,
            r.classes@ == ""@,
            r.attrs@ == Seq::<(Seq<char>, Seq<char>)>::empty(),
    {
        InputText { label: "", name: "", value: "", required: false, hidden: false, classes: "", attrs: HtmlAttrs::new() }
    }
}

/// Render a text input (a hidden one shows no label).
pub fn input_text(opts: &InputText) -> (r: String)
    ensures
        r@ == labeled_input_spec(
            if opts.hidden { spaced("my-1 hidden"@, opts.classes@) } else { spaced("my-1"@, opts.classes@) },
            opts.label@,
            !opts.hidden,
            if opts.hidden { "hidden"@ } else { "text"@ },
            opts.name@,
            opts.value@,
            input_class_of(opts.classes@),
            opts.required,
            opts.attrs@,
        ),
{
    let wrap = if opts.hidden { spaced_exec("my-1 hidden", opts.classes) } else { spaced_exec("my-1", opts.classes) };
    let input_type = if opts.hidden { "hidden" } else { "text" };
    let input_class = spaced_exec("input input-bordered w-full", opts.classes);
    labeled_input(
        wrap.as_str(),
        opts.label,
        !opts.hidden,
        input_type,
        opts.name,
        opts.value,
        input_class.as_str(),
        opts.required,
        &opts.attrs,
    )
}

/// HTML color picker (`#rrggbb`).
pub struct InputColor<'a> {
    pub label: &'a str,
    pub name: &'a str,
    pub value: &'a str,
    pub required: bool,
    pub classes: &'a str,
    pub attrs: HtmlAttrs,
}

impl Default for InputColor<'_> {
    fn default() -> (r: Self)
        ensures
            r.label@ == "Color"@,
            r.name@ == "color"@,
            r.value@ == ""@,
            !r.required,
            r.classes@ == ""@,
            r.attrs@ == Seq::<(Seq<char>, Seq<char>)>::empty(),
    {
        InputColor { label: "Color", name: "color", value: "", required: false, classes: "", attrs: HtmlAttrs::new() }
    }
}

/// Classes of the color swatch input.
pub const COLOR_INPUT_CLASS: &'static str = "h-10 w-16 cursor-pointer p-1 rounded-md border border-base-300 bg-base-100";

/// Render a color input (an empty value shows indigo `#6366f1`).
pub fn input_color(opts: &InputColor) -> (r: String)
    ensures
        r@ == labeled_input_spec(
            spaced("my-1"@, opts.classes@),
            opts.label@,
            true,
            "color"@,
            opts.name@,
            if opts.value@.len() == 0 { "#6366f1"@ } else { opts.value@ },
            COLOR_INPUT_CLASS@,
            opts.required,
            opts.attrs@,
        ),
{
    let wrap = spaced_exec("my-1", opts.classes);
    let value = if opts.value.is_empty() { "#6366f1" } else { opts.value };
    labeled_input(wrap.as_str(), opts.label, true, "color", opts.name, value, COLOR_INPUT_CLASS, opts.required, &opts.attrs)
}

/// A plain bordered input of a given type.
pub open spec fn typed_input_spec(
    input_type: Seq<char>,
    label: Seq<char>,
    name: Seq<char>,
    value: Seq<char>,
    required: bool,
    classes: Seq<char>,
    attrs: Seq<(Seq<char>, Seq<char>)>,
) -> Seq<char> {
    labeled_input_spec(spaced("my-1"@, classes), label, true, input_type, name, value, input_class_of(classes), required, attrs)
}

/// Render a plain bordered input of type `input_type`.
fn typed_input(
    input_type: &str,
    label: &str,
    name: &str,
    value: &str,
    required: bool,
    classes: &str,
    attrs: &HtmlAttrs,
) -> (r: String)
    ensures
        r@ == typed_input_spec(input_type@, label@, name@, value@, required, classes@, attrs@),
{
    let wrap = spaced_exec("my-1", classes);
    let input_class = spaced_exec("input input-bordered w-full", classes);
    labeled_input(wrap.as_str(), label, true, input_type, name, value, input_class.as_str(), required, attrs)
}

/// Email input with browser validation.
pub struct InputEmail<'a> {
    pub label: &'a str,
    pub name: &'a str,
    pub value: &'a str,
    pub required: bool,
    pub classes: &'a str,
    pub attrs: HtmlAttrs,
}

impl Default for InputEmail<'_> {
    fn default() -> (r: Self)
        ensures
            r.label@ == "Email"@,
            r.name@ == "email"@,
            r.value@ == ""@,
            !r.required,
            r.classes@ == ""@,
            r.attrs@ == Seq::<(Seq<char>, Seq<char>)>::empty(),
    {
        InputEmail { label: "Email", name: "email", value: "", required: false, classes: "", attrs: HtmlAttrs::new() }
    }
}

/// Render an email input.
pub fn input_email(opts: &InputEmail) -> (r: String)
    ensures
        r@ == typed_input_spec("email"@, opts.label@, opts.name@, opts.value@, opts.required, opts.classes@, opts.attrs@),
{
    typed_input("email", opts.label, opts.name, opts.value, opts.required, opts.classes, &opts.attrs)
}

/// Password input.
pub struct InputPassword<'a> {
    pub label: &'a str,
    pub name: &'a str,
    pub value: &'a str,
    pub required: bool,
    pub classes: &'a str,
    pub attrs: HtmlAttrs,
}

impl Default for InputPassword<'_> {
    fn default() -> (r: Self)
        ensures
            r.label@ == "Password"@,
            r.name@ == "password"@,
            r.value@ == ""@,
            !r.required,
            r.classes@ == ""@,
            r.attrs@ == Seq::<(Seq<char>, Seq<char>)>::empty(),
    {
        InputPassword { label: "Password", name: "password", value: "", required: false, classes: "", attrs: HtmlAttrs::new() }
    }
}

/// Render a password input.
pub fn input_password(opts: &InputPassword) -> (r: String)
    ensures
        r@ == typed_input_spec("password"@, opts.label@, opts.name@, opts.value@, opts.required, opts.classes@, opts.attrs@),
{
    typed_input("password", opts.label, opts.name, opts.value, opts.required, opts.classes, &opts.attrs)
}

/// Numeric input.
pub struct InputNumber<'a> {
    pub label: &'a str,
    pub name: &'a str,
    pub value: &'a str,
    pub required: bool,
    pub classes: &'a str,
    pub attrs: HtmlAttrs,
}

impl Default for InputNumber<'_> {
    fn default() -> (r: Self)
        ensures
            r.label@ == ""@,
            r.name@ == ""@,
            r.value@ == ""@,
            !r.required,
            r.classes@ == ""@,
            r.attrs@ == Seq::<(Seq<char>, Seq<char>)>::empty(),
    {
        InputNumber { label: "", name: "", value: "", required: false, classes: "", attrs: HtmlAttrs::new() }
    }
}

/// Render a number input.
pub fn input_number(opts: &InputNumber) -> (r: String)
    ensures
        r@ == typed_input_spec("number"@, opts.label@, opts.name@, opts.value@, opts.required, opts.classes@, opts.attrs@),
{
    typed_input("number", opts.label, opts.name, opts.value, opts.required, opts.classes, &opts.attrs)
}

/// Telephone input.
pub struct InputPhone<'a> {
    pub label: &'a str,
    pub name: &'a str,
    pub value: &'a str,
    pub required: bool,
    pub classes: &'a str,
    pub attrs: HtmlAttrs,
}

impl Default for InputPhone<'_> {
    fn default() -> (r: Self)
        ensures
            r.label@ == "Phone"@,
            r.name@ == "phone"@,
            r.value@ == ""@,
            !r.required,
            r.classes@ == ""@,
            r.attrs@ == Seq::<(Seq<char>, Seq<char>)>::empty(),
    {
        InputPhone { label: "Phone", name: "phone", value: "", required: false, classes: "", attrs: HtmlAttrs::new() }
    }
}

/// Render a phone input.
pub fn input_phone(opts: &InputPhone) -> (r: String)
    ensures
        r@ == typed_input_spec("tel"@, opts.label@, opts.name@, opts.value@, opts.required, opts.classes@, opts.attrs@),
{
    typed_input("tel", opts.label, opts.name, opts.value, opts.required, opts.classes, &opts.attrs)
}

/// Time picker input.
pub struct InputTime<'a> {
    pub label: &'a str,
    pub name: &'a str,
    pub value: &'a str,
    pub required: bool,
    pub classes: &'a str,
    pub attrs: HtmlAttrs,
}

impl Default for InputTime<'_> {
    fn default() -> (r: Self)
        ensures
            r.label@ == "Time"@,
            r.name@ == ""@,
            r.value@ == ""@,
            !r.required,
            r.classes@ == ""@,
            r.attrs@ == Seq::<(Seq<char>, Seq<char>)>::empty(),
    {
        InputTime { label: "Time", name: "", value: "", required: false, classes: "", attrs: HtmlAttrs::new() }
    }
}

/// Render a time input.
pub fn input_time(opts: &InputTime) -> (r: String)
    ensures
        r@ == typed_input_spec("time"@, opts.label@, opts.name@, opts.value@, opts.required, opts.classes@, opts.attrs@),
{
    typed_input("time", opts.label, opts.name, opts.value, opts.required, opts.classes, &opts.attrs)
}

/// `placeholder` and `autocomplete="off"`, then the caller's attributes over them.
pub open spec fn text_hint_attrs(placeholder: Seq<char>, extra: Seq<(Seq<char>, Seq<char>)>) -> Seq<(Seq<char>, Seq<char>)> {
    crate::attrs::merge_entries(
        crate::attrs::insert_sorted(crate::attrs::insert_sorted(seq![], "placeholder"@, placeholder), "autocomplete"@, "off"@),
        extra,
    )
}

/// Date text input (`DD/MM/YYYY`); the native date picker is not used.
pub struct InputDate<'a> {
    pub label: &'a str,
    pub name: &'a str,
    pub value: &'a str,
    pub required: bool,
    pub classes: &'a str,
    pub attrs: HtmlAttrs,
}

impl Default for InputDate<'_> {
    fn default() -> (r: Self)
        ensures
            r.label@ == "Date"@,
            r.name@ == ""@,
            r.value@ == ""@,
            !r.required,
            r.classes@ == ""@,
            r.attrs@ == Seq::<(Seq<char>, Seq<char>)>::empty(),
    {
        InputDate { label: "Date", name: "", value: "", required: false, classes: "", attrs: HtmlAttrs::new() }
    }
}

/// Render a date input.
pub fn input_date(opts: &InputDate) -> (r: String)
    ensures
        r@ == typed_input_spec("text"@, opts.label@, opts.name@, opts.value@, opts.required, opts.classes@, text_hint_attrs("DD/MM/YYYY"@, opts.attrs@)),
{
    let attrs = HtmlAttrs::new().set("placeholder", "DD/MM/YYYY").set("autocomplete", "off").merge(&opts.attrs);
    typed_input("text", opts.label, opts.name, opts.value, opts.required, opts.classes, &attrs)
}

/// Datetime text input (`DD/MM/YYYY HH:MM:SS`).
pub struct InputDatetime<'a> {
    pub label: &'a str,
    pub name: &'a str,
    pub value: &'a str,
    pub required: bool,
    pub classes: &'a str,
    pub attrs: HtmlAttrs,
}

impl Default for InputDatetime<'_> {
    fn default() -> (r: Self)
        ensures
            r.label@ == "Date & time"@,
            r.name@ == ""@,
            r.value@ == ""@,
            !r.required,
            r.classes@ == ""@,
            r.attrs@ == Seq::<(Seq<char>, Seq<char>)>::empty(),
    {
        InputDatetime { label: "Date & time", name: "", value: "", required: false, classes: "", attrs: HtmlAttrs::new() }
    }
}

/// Render a datetime input.
pub fn input_datetime(opts: &InputDatetime) -> (r: String)
    ensures
        r@ == typed_input_spec(
            "text"@,
            opts.label@,
            opts.name@,
            opts.value@,
            opts.required,
            opts.classes@,
            text_hint_attrs("DD/MM/YYYY HH:MM:SS"@, opts.attrs@),
        ),
{
    let attrs = HtmlAttrs::new().set("placeholder", "DD/MM/YYYY HH:MM:SS").set("autocomplete", "off").merge(&opts.attrs);
    typed_input("text", opts.label, opts.name, opts.value, opts.required, opts.classes, &attrs)
}


/// Multi-line text area.
pub struct InputTextarea<'a> {
    pub label: &'a str,
    pub name: &'a str,
    pub value: &'a str,
    pub required: bool,
    pub rows: u32,
    pub classes: &'a str,
    pub attrs: HtmlAttrs,
}

impl Default for InputTextarea<'_> {
    fn default() -> (r: Self)
        ensures
            r.label@ == ""@,
            r.name@ == ""@,
            r.value@ == ""@,
            !r.required,
            r.rows == 4,
            r.classes@ == ""@,
            r.attrs@ == Seq::<(Seq<char>, Seq<char>)>::empty(),
    {
        InputTextarea { label: "", name: "", value: "", required: false, rows: 4, classes: "", attrs: HtmlAttrs::new() }
    }
}

/// The HTML of a textarea.
pub open spec fn textarea_spec(
    label: Seq<char>,
    name: Seq<char>,
    value: Seq<char>,
    required: bool,
    rows: u32,
    classes: Seq<char>,
    attrs: Seq<(Seq<char>, Seq<char>)>,
) -> Seq<char> {
    "<div class=\""@ + escape_html(spaced("my-1"@, classes)) + "\"><label class=\""@ + LABEL_STACKED@ + "\">"@
        + escape_html(label) + "<textarea name=\""@ + escape_attr_seq(name) + "\" rows=\""@ + crate::text::decimal(rows as nat)
        + "\" class=\""@ + escape_attr_seq(spaced("textarea textarea-bordered w-full"@, classes)) + "\""@
        + required_text(required) + render_entries(attrs) + ">"@ + escape_html(value) + "</textarea>"@
        + "</label></div>"@
}

/// Render a textarea.
pub fn input_textarea(opts: &InputTextarea) -> (r: String)
    ensures
        r@ == textarea_spec(opts.label@, opts.name@, opts.value@, opts.required, opts.rows, opts.classes@, opts.attrs@),
{
    let wrap = spaced_exec("my-1", opts.classes);
    let class = spaced_exec("textarea textarea-bordered w-full", opts.classes);
    let mut out = to_owned("<div class=\"");
    push_escaped_html(&mut out, wrap.as_str());
    push_str(&mut out, "\"><label class=\"");
    push_str(&mut out, LABEL_STACKED);
    push_str(&mut out, "\">");
    push_escaped_html(&mut out, opts.label);
    push_str(&mut out, "<textarea name=\"");
    push_escaped_attr(&mut out, opts.name);
    push_str(&mut out, "\" rows=\"");
    crate::text::push_decimal(&mut out, opts.rows as u64);
    push_str(&mut out, "\" class=\"");
    push_escaped_attr(&mut out, class.as_str());
    push_str(&mut out, "\"");
    push_required(&mut out, opts.required);
    let a = opts.attrs.as_string();
    push_str(&mut out, a.as_str());
    push_str(&mut out, ">");
    push_escaped_html(&mut out, opts.value);
    push_str(&mut out, "</textarea>");
    push_str(&mut out, "</label></div>");
    out
}

/// Checkbox, or a hidden boolean that submits `true` / `false`.
pub struct InputCheckbox<'a> {
    pub label: &'a str,
    pub name: &'a str,
    pub checked: bool,
    pub hidden: bool,
    pub classes: &'a str,
    pub attrs: HtmlAttrs,
}

impl Default for InputCheckbox<'_> {
    fn default() -> (r: Self)
        ensures
            r.label@ == ""@,
            r.name@ == ""@,
            !r.checked,
            !r.hidden,
            r.classes@ == ""@,
            r.attrs@ == Seq::<(Seq<char>, Seq<char>)>::empty(),
    {
        InputCheckbox { label: "", name: "", checked: false, hidden: false, classes: "", attrs: HtmlAttrs::new() }
    }
}

/// ` checked` when set.
pub open spec fn checked_text(checked: bool) -> Seq<char> {
    if checked { " checked"@ } else { seq![] }
}

/// Append ` checked` when set.
fn push_checked(out: &mut String, checked: bool)
    ensures
        final(out)@ == old(out)@ + checked_text(checked),
{
    if checked {
        push_str(out, " checked");
    } else {
        assert(old(out)@ + Seq::<char>::empty() == old(out)@);
    }
}

/// Class of the `<label>` around an inline control.
pub const LABEL_INLINE: &'static str = "label text-sm font-bold cursor-pointer justify-start gap-2 flex flex-row items-center";

/// The HTML of a checkbox.
pub open spec fn checkbox_spec(
    label: Seq<char>,
    name: Seq<char>,
    checked: bool,
    hidden: bool,
    classes: Seq<char>,
    attrs: Seq<(Seq<char>, Seq<char>)>,
) -> Seq<char> {
    if hidden {
        "<div class=\"hidden\"><input type=\"hidden\" name=\""@ + escape_html(name) + "\" value=\""@
            + (if checked { "true"@ } else { "false"@ }) + "\"></div>"@
    } else {
        "<div class=\""@ + escape_html(classes) + "\"><label class=\""@ + LABEL_INLINE@ + "\">"@
            + "<input type=\"checkbox\" name=\""@ + escape_attr_seq(name) + "\" value=\"true\" class=\"checkbox\""@
            + checked_text(checked) + render_entries(attrs) + ">"@ + "<span class=\"label-text\">"@ + escape_html(label)
            + "</span></label></div>"@
    }
}

/// Render a checkbox input.
pub fn input_checkbox(opts: &InputCheckbox) -> (r: String)
    ensures
        r@ == checkbox_spec(opts.label@, opts.name@, opts.checked, opts.hidden, opts.classes@, opts.attrs@),
{
    if opts.hidden {
        let mut out = to_owned("<div class=\"hidden\"><input type=\"hidden\" name=\"");
        push_escaped_html(&mut out, opts.name);
        push_str(&mut out, "\" value=\"");
        push_str(&mut out, if opts.checked { "true" } else { "false" });
        push_str(&mut out, "\"></div>");
        return out;
    }
    let mut out = to_owned("<div class=\"");
    push_escaped_html(&mut out, opts.classes);
    push_str(&mut out, "\"><label class=\"");
    push_str(&mut out, LABEL_INLINE);
    push_str(&mut out, "\">");
    push_str(&mut out, "<input type=\"checkbox\" name=\"");
    push_escaped_attr(&mut out, opts.name);
    push_str(&mut out, "\" value=\"true\" class=\"checkbox\"");
    push_checked(&mut out, opts.checked);
    let a = opts.attrs.as_string();
    push_str(&mut out, a.as_str());
    push_str(&mut out, ">");
    push_str(&mut out, "<span class=\"label-text\">");
    push_escaped_html(&mut out, opts.label);
    push_str(&mut out, "</span></label></div>");
    out
}

/// One option of a radio group.
pub struct InputRadioOption<'a> {
    pub value: &'a str,
    pub label: &'a str,
    pub checked: bool,
}

/// Mutually exclusive radio buttons.
pub struct InputRadioGroup<'a> {
    pub label: &'a str,
    pub name: &'a str,
    pub options: &'a [InputRadioOption<'a>],
    pub classes: &'a str,
    pub attrs: HtmlAttrs,
}

impl Default for InputRadioGroup<'_> {
    fn default() -> (r: Self)
        ensures
            r.label@ == ""@,
            r.name@ == ""@,
            r.options@.len() == 0,
            r.classes@ == ""@,
            r.attrs@ == Seq::<(Seq<char>, Seq<char>)>::empty(),
    {
        InputRadioGroup { label: "", name: "", options: &[], classes: "", attrs: HtmlAttrs::new() }
    }
}

/// Class of the `<label>` around one radio button.
pub const LABEL_RADIO: &'static str = "label text-sm cursor-pointer justify-start gap-2 flex flex-row items-center";

/// One radio button. (A stray `"` follows the `checked` marker, as the
/// template has always written it; browsers ignore it.)
pub open spec fn radio_option_html(name: Seq<char>, o: InputRadioOption, attrs: Seq<(Seq<char>, Seq<char>)>) -> Seq<char> {
    radio_option_text(name, o, render_entries(attrs))
}

/// One radio button, with the attribute text already rendered.
pub open spec fn radio_option_text(name: Seq<char>, o: InputRadioOption, attrs_text: Seq<char>) -> Seq<char> {
    "<label class=\""@ + LABEL_RADIO@ + "\">"@ + "<input type=\"radio\" name=\""@ + escape_attr_seq(name) + "\" value=\""@
        + escape_attr_seq(o.value@) + "\" class=\"radio\""@ + checked_text(o.checked) + "\""@ + attrs_text
        + ">"@ + "<span class=\"label-text\">"@ + escape_html(o.label@) + "</span></label>"@
}

/// Append one radio button.
fn push_radio_option(out: &mut String, name: &str, o: &InputRadioOption, attrs_text: &str)
    ensures
        final(out)@ == old(out)@ + radio_option_text(name@, *o, attrs_text@),
{
    push_str(out, "<label class=\"");
    push_str(out, LABEL_RADIO);
    push_str(out, "\">");
    push_str(out, "<input type=\"radio\" name=\"");
    push_escaped_attr(out, name);
    push_str(out, "\" value=\"");
    push_escaped_attr(out, o.value);
    push_str(out, "\" class=\"radio\"");
    push_checked(out, o.checked);
    push_str(out, "\"");
    push_str(out, attrs_text);
    push_str(out, ">");
    push_str(out, "<span class=\"label-text\">");
    push_escaped_html(out, o.label);
    push_str(out, "</span></label>");
}

/// The radio buttons, in order.
pub open spec fn radio_options_html(name: Seq<char>, os: Seq<InputRadioOption>, attrs: Seq<(Seq<char>, Seq<char>)>) -> Seq<char>
    decreases os.len(),
{
    if os.len() == 0 {
        seq![]
    } else {
        radio_options_html(name, os.drop_last(), attrs) + radio_option_html(name, os.last(), attrs)
    }
}

/// The HTML of a radio group.
pub open spec fn radio_group_spec(
    label: Seq<char>,
    name: Seq<char>,
    options: Seq<InputRadioOption>,
    classes: Seq<char>,
    attrs: Seq<(Seq<char>, Seq<char>)>,
) -> Seq<char> {
    "<div class=\""@ + escape_html(spaced("my-1"@, classes)) + "\">"@ + (if label.len() > 0 {
        "<div class=\"label text-sm font-bold\">"@ + escape_html(label) + "</div>"@
    } else {
        seq![]
    }) + "<div class=\"flex flex-col gap-1\">"@ + radio_options_html(name, options, attrs) + "</div></div>"@
}

/// Render a radio group.
pub fn input_radio_group(opts: &InputRadioGroup) -> (r: String)
    ensures
        r@ == radio_group_spec(opts.label@, opts.name@, opts.options@, opts.classes@, opts.attrs@),
{
    let wrap = spaced_exec("my-1", opts.classes);
    let a = opts.attrs.as_string();
    let mut out = to_owned("<div class=\"");
    push_escaped_html(&mut out, wrap.as_str());
    push_str(&mut out, "\">");
    let ghost head = out@;
    if !opts.label.is_empty() {
        push_str(&mut out, "<div class=\"label text-sm font-bold\">");
        push_escaped_html(&mut out, opts.label);
        push_str(&mut out, "</div>");
    } else {
        assert(head + Seq::<char>::empty() == head);
    }
    push_str(&mut out, "<div class=\"flex flex-col gap-1\">");
    let ghost start = out@;
    let mut i: usize = 0;
    while i < opts.options.len()
        invariant
            i <= opts.options@.len(),
            a@ == render_entries(opts.attrs@),
            out@ == start + radio_options_html(opts.name@, opts.options@.take(i as int), opts.attrs@),
        decreases opts.options@.len() - i,
    {
        let o = &opts.options[i];
        push_radio_option(&mut out, opts.name, o, a.as_str());
        assert(opts.options@.take(i + 1).drop_last() == opts.options@.take(i as int));
        assert(opts.options@.take(i + 1).last() == *o);
        i = i + 1;
    }
    assert(opts.options@.take(opts.options@.len() as int) == opts.options@);
    push_str(&mut out, "</div></div>");
    out
}

/// One option of a select.
pub struct InputSelectOption<'a> {
    pub value: &'a str,
    pub label: &'a str,
    pub selected: bool,
}

/// Dropdown select over static options.
pub struct InputSelect<'a> {
    pub label: &'a str,
    pub name: &'a str,
    pub required: bool,
    pub classes: &'a str,
    pub options: &'a [InputSelectOption<'a>],
    pub attrs: HtmlAttrs,
}

impl Default for InputSelect<'_> {
    fn default() -> (r: Self)
        ensures
            r.label@ == ""@,
            r.name@ == ""@,
            !r.required,
            r.classes@ == ""@,
            r.options@.len() == 0,
            r.attrs@ == Seq::<(Seq<char>, Seq<char>)>::empty(),
    {
        InputSelect { label: "", name: "", required: false, classes: "", options: &[], attrs: HtmlAttrs::new() }
    }
}

/// One `<option>`.
pub open spec fn select_option_html(o: InputSelectOption) -> Seq<char> {
    "<option value=\""@ + escape_html(o.value@) + "\""@ + (if o.selected { " selected"@ } else { seq![] }) + ">"@
        + escape_html(o.label@) + "</option>"@
}

/// The `<option>`s, in order.
pub open spec fn select_options_html(os: Seq<InputSelectOption>) -> Seq<char>
    decreases os.len(),
{
    if os.len() == 0 {
        seq![]
    } else {
        select_options_html(os.drop_last()) + select_option_html(os.last())
    }
}

/// The HTML of a select.
pub open spec fn select_spec(
    label: Seq<char>,
    name: Seq<char>,
    required: bool,
    classes: Seq<char>,
    options: Seq<InputSelectOption>,
    attrs: Seq<(Seq<char>, Seq<char>)>,
) -> Seq<char> {
    "<div class=\""@ + escape_html(spaced("my-1"@, classes)) + "\"><label class=\""@ + LABEL_STACKED@ + "\">"@
        + escape_html(label) + "<select name=\""@ + escape_attr_seq(name) + "\" class=\""@
        + escape_attr_seq(spaced("select select-bordered w-full"@, classes)) + "\""@ + required_text(required)
        + render_entries(attrs) + ">"@ + select_options_html(options) + "</select>"@ + "</label></div>"@
}

/// Render a select.
pub fn input_select(opts: &InputSelect) -> (r: String)
    ensures
        r@ == select_spec(opts.label@, opts.name@, opts.required, opts.classes@, opts.options@, opts.attrs@),
{
    let wrap = spaced_exec("my-1", opts.classes);
    let class = spaced_exec("select select-bordered w-full", opts.classes);
    let mut out = to_owned("<div class=\"");
    push_escaped_html(&mut out, wrap.as_str());
    push_str(&mut out, "\"><label class=\"");
    push_str(&mut out, LABEL_STACKED);
    push_str(&mut out, "\">");
    push_escaped_html(&mut out, opts.label);
    push_str(&mut out, "<select name=\"");
    push_escaped_attr(&mut out, opts.name);
    push_str(&mut out, "\" class=\"");
    push_escaped_attr(&mut out, class.as_str());
    push_str(&mut out, "\"");
    push_required(&mut out, opts.required);
    let a = opts.attrs.as_string();
    push_str(&mut out, a.as_str());
    push_str(&mut out, ">");
    let ghost start = out@;
    let mut i: usize = 0;
    while i < opts.options.len()
        invariant
            i <= opts.options@.len(),
            out@ == start + select_options_html(opts.options@.take(i as int)),
        decreases opts.options@.len() - i,
    {
        let o = &opts.options[i];
        push_str(&mut out, "<option value=\"");
        push_escaped_html(&mut out, o.value);
        push_str(&mut out, "\"");
        if o.selected {
            push_str(&mut out, " selected");
        }
        push_str(&mut out, ">");
        push_escaped_html(&mut out, o.label);
        push_str(&mut out, "</option>");
        assert(opts.options@.take(i + 1).drop_last() == opts.options@.take(i as int));
        assert(opts.options@.take(i + 1).last() == *o);
        i = i + 1;
    }
    assert(opts.options@.take(opts.options@.len() as int) == opts.options@);
    push_str(&mut out, "</select>");
    push_str(&mut out, "</label></div>");
    out
}

/// Free-form duration text input (`"2 months 3 days 5 seconds"`, `"720h"`).
pub struct InputDuration<'a> {
    pub label: &'a str,
    pub name: &'a str,
    pub value: &'a str,
    pub required: bool,
    pub classes: &'a str,
    pub attrs: HtmlAttrs,
}

impl Default for InputDuration<'_> {
    fn default() -> (r: Self)
        ensures
            r.label@ == "Duration"@,
            r.name@ == ""@,
            r.value@ == ""@,
            !r.required,
            r.classes@ == ""@,
            r.attrs@ == Seq::<(Seq<char>, Seq<char>)>::empty(),
    {
        InputDuration { label: "Duration", name: "", value: "", required: false, classes: "", attrs: HtmlAttrs::new() }
    }
}

/// The unit hint under a duration input.
pub const DURATION_HINT: &'static str = "Use units like seconds, minutes, hours, days, weeks, months, years — commas optional.";

/// The HTML of a duration input.
pub open spec fn duration_spec(
    label: Seq<char>,
    name: Seq<char>,
    value: Seq<char>,
    required: bool,
    classes: Seq<char>,
    attrs: Seq<(Seq<char>, Seq<char>)>,
) -> Seq<char> {
    "<div class=\""@ + escape_html(spaced("my-1"@, classes)) + "\"><label class=\""@ + LABEL_STACKED@ + "\">"@
        + escape_html(label) + "<input type=\"text\" name=\""@ + escape_attr_seq(name) + "\" value=\""@
        + escape_attr_seq(value) + "\" placeholder=\"e.g. 2 months 3 days 5 seconds\" class=\""@
        + escape_attr_seq(input_class_of(classes)) + "\""@ + required_text(required) + render_entries(attrs) + ">"@
        + "<span class=\"text-xs text-base-content/60 mt-1\">"@ + escape_html(DURATION_HINT@) + "</span>"@
        + "</label></div>"@
}

/// Render a duration input with its unit hint.
pub fn input_duration(opts: &InputDuration) -> (r: String)
    ensures
        r@ == duration_spec(opts.label@, opts.name@, opts.value@, opts.required, opts.classes@, opts.attrs@),
{
    let wrap = spaced_exec("my-1", opts.classes);
    let class = spaced_exec("input input-bordered w-full", opts.classes);
    let mut out = to_owned("<div class=\"");
    push_escaped_html(&mut out, wrap.as_str());
    push_str(&mut out, "\"><label class=\"");
    push_str(&mut out, LABEL_STACKED);
    push_str(&mut out, "\">");
    push_escaped_html(&mut out, opts.label);
    push_str(&mut out, "<input type=\"text\" name=\"");
    push_escaped_attr(&mut out, opts.name);
    push_str(&mut out, "\" value=\"");
    push_escaped_attr(&mut out, opts.value);
    push_str(&mut out, "\" placeholder=\"e.g. 2 months 3 days 5 seconds\" class=\"");
    push_escaped_attr(&mut out, class.as_str());
    push_str(&mut out, "\"");
    push_required(&mut out, opts.required);
    let a = opts.attrs.as_string();
    push_str(&mut out, a.as_str());
    push_str(&mut out, ">");
    push_str(&mut out, "<span class=\"text-xs text-base-content/60 mt-1\">");
    push_escaped_html(&mut out, DURATION_HINT);
    push_str(&mut out, "</span>");
    push_str(&mut out, "</label></div>");
    out
}

/// File upload control.
pub struct InputFile<'a> {
    pub label: &'a str,
    pub name: &'a str,
    pub required: bool,
    pub multiple: bool,
    /// The `accept` attribute (`"image/*"`, `".zip"`); empty allows any file.
    pub accept: &'a str,
    pub classes: &'a str,
    pub attrs: HtmlAttrs,
}

impl Default for InputFile<'_> {
    fn default() -> (r: Self)
        ensures
            r.label@ == ""@,
            r.name@ == ""@,
            !r.required,
            !r.multiple,
            r.accept@ == ""@,
            r.classes@ == ""@,
            r.attrs@ == Seq::<(Seq<char>, Seq<char>)>::empty(),
    {
        InputFile { label: "", name: "", required: false, multiple: false, accept: "", classes: "", attrs: HtmlAttrs::new() }
    }
}

/// The HTML of a file input.
pub open spec fn file_spec(
    label: Seq<char>,
    name: Seq<char>,
    required: bool,
    multiple: bool,
    accept: Seq<char>,
    classes: Seq<char>,
    attrs: Seq<(Seq<char>, Seq<char>)>,
) -> Seq<char> {
    "<div class=\""@ + escape_html(spaced("my-1"@, classes)) + "\"><label class=\""@ + LABEL_STACKED@ + "\">"@
        + escape_html(label) + "<input type=\"file\" name=\""@ + escape_attr_seq(name) + "\" class=\""@
        + escape_attr_seq(spaced("file-input file-input-bordered w-full"@, classes)) + "\""@ + required_text(required)
        + (if multiple { " multiple"@ } else { seq![] })
        + (if accept.len() == 0 { seq![] } else { " accept=\""@ + escape_attr_seq(accept) + "\""@ })
        + render_entries(attrs) + ">"@ + "</label></div>"@
}

/// Render a file input.
pub fn input_file(opts: &InputFile) -> (r: String)
    ensures
        r@ == file_spec(opts.label@, opts.name@, opts.required, opts.multiple, opts.accept@, opts.classes@, opts.attrs@),
{
    let wrap = spaced_exec("my-1", opts.classes);
    let class = spaced_exec("file-input file-input-bordered w-full", opts.classes);
    let mut out = to_owned("<div class=\"");
    push_escaped_html(&mut out, wrap.as_str());
    push_str(&mut out, "\"><label class=\"");
    push_str(&mut out, LABEL_STACKED);
    push_str(&mut out, "\">");
    push_escaped_html(&mut out, opts.label);
    push_str(&mut out, "<input type=\"file\" name=\"");
    push_escaped_attr(&mut out, opts.name);
    push_str(&mut out, "\" class=\"");
    push_escaped_attr(&mut out, class.as_str());
    push_str(&mut out, "\"");
    push_required(&mut out, opts.required);
    let ghost m0 = out@;
    if opts.multiple {
        push_str(&mut out, " multiple");
    } else {
        assert(m0 + Seq::<char>::empty() == m0);
    }
    let ghost m1 = out@;
    if !opts.accept.is_empty() {
        push_str(&mut out, " accept=\"");
        push_escaped_attr(&mut out, opts.accept);
        push_str(&mut out, "\"");
    } else {
        assert(m1 + Seq::<char>::empty() == m1);
    }
    let a = opts.attrs.as_string();
    push_str(&mut out, a.as_str());
    push_str(&mut out, ">");
    push_str(&mut out, "</label></div>");
    out
}

} // verus!
