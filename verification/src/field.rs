//! Read-only display fields for detail pages and object views.

use vstd::prelude::*;

use crate::attrs::render_entries;
use crate::button::{is_external_href, is_external_href_spec};
use crate::container::{container_error, error_line_spec};
use crate::html::{concat, div_class, div_spec, div_text, escape_html, icon, icon_spec, push_escaped_html};
use crate::swap::{hx_nav_app_layout_for_url, nav_app_layout_spec};
use crate::text::{escape_attr_seq, push_escaped_attr, push_str, to_owned};

verus! {

/// Page or section title (large primary heading style).
pub struct FieldTitle<'a> {
    pub value: &'a str,
    pub classes: &'a str,
}

/// Render a title field.
pub fn field_title(opts: FieldTitle) -> (r: String)
    ensures
        r@ == div_spec("text-xl font-semibold text-primary "@ + opts.classes@, escape_html(opts.value@)),
{
    let class = concat("text-xl font-semibold text-primary ", opts.classes);
    div_text(class.as_str(), opts.value)
}

/// Secondary heading or muted caption under a title.
pub struct FieldSubtitle<'a> {
    pub value: &'a str,
    pub classes: &'a str,
}

/// The subtitle class: muted grey unless classes are given.
pub open spec fn subtitle_class(classes: Seq<char>) -> Seq<char> {
    if classes.len() == 0 {
        "text-md text-gray-500"@
    } else {
        classes
    }
}

/// Render a subtitle field.
pub fn field_subtitle(opts: FieldSubtitle) -> (r: String)
    ensures
        r@ == div_spec(subtitle_class(opts.classes@), escape_html(opts.value@)),
{
    if opts.classes.is_empty() {
        div_text("text-md text-gray-500", opts.value)
    } else {
        div_text(opts.classes, opts.value)
    }
}

/// Plain text value in a styled div.
pub struct FieldText<'a> {
    pub value: &'a str,
    pub classes: &'a str,
}

/// Render a text field.
pub fn field_text(opts: FieldText) -> (r: String)
    ensures
        r@ == div_spec(opts.classes@, escape_html(opts.value@)),
{
    div_text(opts.classes, opts.value)
}

/// Multi-line text preserving whitespace.
pub struct FieldTextarea<'a> {
    pub value: &'a str,
    pub classes: &'a str,
}

/// Render a pre-wrapped textarea display.
pub fn field_textarea(opts: FieldTextarea) -> (r: String)
    ensures
        r@ == div_spec("whitespace-pre-wrap "@ + opts.classes@, escape_html(opts.value@)),
{
    let class = concat("whitespace-pre-wrap ", opts.classes);
    div_text(class.as_str(), opts.value)
}

/// Boolean value as a check or cross icon (no label).
pub struct FieldCheckbox<'a> {
    pub checked: bool,
    pub classes: &'a str,
}

/// The icon of a read-only checkbox.
pub open spec fn checkbox_icon_spec(checked: bool) -> Seq<char> {
    if checked {
        icon_spec("check-circle"@, "text-success"@, Seq::empty())
    } else {
        icon_spec("x-circle"@, "text-error"@, Seq::empty())
    }
}

/// Render a read-only checkbox indicator.
pub fn field_checkbox(opts: FieldCheckbox) -> (r: String)
    ensures
        r@ == "<span>"@ + checkbox_icon_spec(opts.checked) + "</span>"@,
{
    let i = if opts.checked {
        icon("check-circle", "text-success")
    } else {
        icon("x-circle", "text-error")
    };
    let mut out = to_owned("<span>");
    push_str(&mut out, i.as_str());
    push_str(&mut out, "</span>");
    out
}

/// Hyperlink with app-layout navigation for in-app paths.
pub struct FieldLink<'a> {
    pub href: &'a str,
    pub label: &'a str,
    pub classes: &'a str,
}

/// The navigation attributes of an in-app link: app-layout swaps for paths
/// starting with `/`, none otherwise.
pub open spec fn in_app_nav_spec(href: Seq<char>) -> Seq<char> {
    if href.len() > 0 && href[0] == '/' && !is_external_href_spec(href) {
        render_entries(nav_app_layout_spec(href))
    } else {
        seq![]
    }
}

fn in_app_nav(href: &str) -> (r: String)
    ensures
        r@ == in_app_nav_spec(href@),
{
    let v = crate::text::chars_of(href);
    if v.len() > 0 && v[0] == '/' && !is_external_href(href) {
        hx_nav_app_layout_for_url(href).as_string()
    } else {
        proof {
            reveal_strlit("");
        }
        String::new()
    }
}

/// The link class: primary link style unless classes are given.
pub open spec fn link_class(classes: Seq<char>) -> Seq<char> {
    if classes.len() == 0 {
        "link link-primary"@
    } else {
        classes
    }
}

/// `<a href=… class=…{nav}>{label}</a>`.
pub open spec fn field_link_spec(href: Seq<char>, label: Seq<char>, classes: Seq<char>) -> Seq<char> {
    "<a href=\""@ + escape_attr_seq(href) + "\" class=\""@ + escape_attr_seq(link_class(classes)) + "\""@
        + in_app_nav_spec(href) + ">"@ + escape_html(label) + "</a>"@
}

/// Render a link field.
pub fn field_link(opts: FieldLink) -> (r: String)
    ensures
        r@ == field_link_spec(opts.href@, opts.label@, opts.classes@),
{
    let class = if opts.classes.is_empty() {
        to_owned("link link-primary")
    } else {
        to_owned(opts.classes)
    };
    let mut out = to_owned("<a href=\"");
    push_escaped_attr(&mut out, opts.href);
    push_str(&mut out, "\" class=\"");
    push_escaped_attr(&mut out, class.as_str());
    push_str(&mut out, "\"");
    let nav = in_app_nav(opts.href);
    push_str(&mut out, nav.as_str());
    push_str(&mut out, ">");
    push_escaped_html(&mut out, opts.label);
    push_str(&mut out, "</a>");
    out
}

/// What phonenumber reads from `value` with India as the default region: the
/// number in E.164 form, or the message of the parse error.
pub uninterp spec fn phone_parse_in(value: Seq<char>) -> Result<Seq<char>, Seq<char>>;

/// Calls `phonenumber::parse` with region IN on `value`, then formats the
/// number in E.164 mode, or renders the error with `to_string`. Claimed: the
/// outcome is [`phone_parse_in`] of `value`; text the parser cannot read
/// gives its error, so every input has one of the two outcomes.
#[verifier::external_body]
fn phone_e164_in(value: &str) -> (r: Result<String, String>)
    ensures
        match r {
            Ok(t) => phone_parse_in(value@) == Ok::<Seq<char>, Seq<char>>(t@),
            Err(e) => phone_parse_in(value@) == Err::<Seq<char>, Seq<char>>(e@),
        },
{
    match phonenumber::parse(Some(phonenumber::country::IN), value) {
        Ok(parsed) => Ok(parsed.format().mode(phonenumber::Mode::E164).to_string()),
        Err(err) => Err(err.to_string()),
    }
}

/// Phone number formatted as E.164 (region IN); an error container on parse failure.
pub struct FieldPhone<'a> {
    pub value: &'a str,
    pub classes: &'a str,
}

/// The phone field for a parse outcome.
pub open spec fn field_phone_spec(parsed: Result<Seq<char>, Seq<char>>, classes: Seq<char>) -> Seq<char> {
    match parsed {
        Ok(t) => div_spec(classes, escape_html(t)),
        Err(msg) => "<div class=\"flex flex-col gap-1 w-full\">"@ + error_line_spec(Some(msg)) + "</div>"@,
    }
}

/// Render the phone field for an already parsed outcome.
pub fn field_phone_parsed(parsed: Result<String, String>, classes: &str) -> (r: String)
    ensures
        r@ == field_phone_spec(
            match parsed {
                Ok(t) => Ok(t@),
                Err(e) => Err(e@),
            },
            classes@,
        ),
{
    match parsed {
        Ok(t) => div_text(classes, t.as_str()),
        Err(msg) => {
            let r = container_error(Some(msg.as_str()), "");
            proof {
                reveal_strlit("");
                assert("<div class=\"flex flex-col gap-1 w-full\">"@ + ""@ == "<div class=\"flex flex-col gap-1 w-full\">"@);
            }
            r
        },
    }
}

/// Render a formatted phone field.
pub fn field_phone(opts: FieldPhone) -> (r: String)
    ensures
        r@ == field_phone_spec(phone_parse_in(opts.value@), opts.classes@),
{
    let parsed = phone_e164_in(opts.value);
    field_phone_parsed(parsed, opts.classes)
}

/// Date string display (pre-formatted value).
pub struct FieldDate<'a> {
    pub value: &'a str,
    pub classes: &'a str,
}

/// Render a date field.
pub fn field_date(opts: FieldDate) -> (r: String)
    ensures
        r@ == div_spec(opts.classes@, escape_html(opts.value@)),
{
    div_text(opts.classes, opts.value)
}

/// Time string display (pre-formatted value).
pub struct FieldTime<'a> {
    pub value: &'a str,
    pub classes: &'a str,
}

/// Render a time field.
pub fn field_time(opts: FieldTime) -> (r: String)
    ensures
        r@ == div_spec(opts.classes@, escape_html(opts.value@)),
{
    div_text(opts.classes, opts.value)
}

/// Datetime string display (pre-formatted value).
pub struct FieldDatetime<'a> {
    pub value: &'a str,
    pub classes: &'a str,
}

/// Render a datetime field.
pub fn field_datetime(opts: FieldDatetime) -> (r: String)
    ensures
        r@ == div_spec(opts.classes@, escape_html(opts.value@)),
{
    div_text(opts.classes, opts.value)
}

/// Duration string display (pre-formatted value).
pub struct FieldDuration<'a> {
    pub value: &'a str,
    pub classes: &'a str,
}

/// Render a duration field.
pub fn field_duration(opts: FieldDuration) -> (r: String)
    ensures
        r@ == div_spec(opts.classes@, escape_html(opts.value@)),
{
    div_text(opts.classes, opts.value)
}

/// Chip list for related many-to-many records: `(label, href)` pairs.
pub struct FieldManyToMany<'a> {
    pub items: &'a [(&'a str, Option<&'a str>)],
    pub classes: &'a str,
}

/// One chip: a link when it has an href, else a plain badge.
pub open spec fn chip_spec(item: (&str, Option<&str>)) -> Seq<char> {
    match item.1 {
        Some(url) => "<a href=\""@ + escape_attr_seq(url@) + "\" class=\"badge badge-outline\""@ + in_app_nav_spec(
            url@,
        ) + ">"@ + escape_html(item.0@) + "</a>"@,
        None => "<span class=\"badge badge-outline\">"@ + escape_html(item.0@) + "</span>"@,
    }
}

/// The chips of `items`, in order.
pub open spec fn chips_spec(items: Seq<(&str, Option<&str>)>) -> Seq<char>
    decreases items.len(),
{
    if items.len() == 0 {
        seq![]
    } else {
        chips_spec(items.drop_last()) + chip_spec(items.last())
    }
}

fn chip(label: &str, href: Option<&str>) -> (r: String)
    ensures
        r@ == chip_spec((label, href)),
{
    match href {
        Some(url) => {
            let mut out = to_owned("<a href=\"");
            push_escaped_attr(&mut out, url);
            push_str(&mut out, "\" class=\"badge badge-outline\"");
            let nav = in_app_nav(url);
            push_str(&mut out, nav.as_str());
            push_str(&mut out, ">");
            push_escaped_html(&mut out, label);
            push_str(&mut out, "</a>");
            out
        },
        None => {
            let mut out = to_owned("<span class=\"badge badge-outline\">");
            push_escaped_html(&mut out, label);
            push_str(&mut out, "</span>");
            out
        },
    }
}

/// Render a chip list of related records.
pub fn field_many_to_many(opts: FieldManyToMany) -> (r: String)
    ensures
        r@ == div_spec("flex flex-wrap gap-2 "@ + opts.classes@, chips_spec(opts.items@)),
{
    let items = opts.items;
    let mut body = String::new();
    let mut i: usize = 0;
    while i < items.len()
        invariant
            i <= items.len(),
            body@ == chips_spec(items@.take(i as int)),
        decreases items.len() - i,
    {
        let (label, href) = items[i];
        let c = chip(label, href);
        push_str(&mut body, c.as_str());
        proof {
            assert(items@.take(i + 1).drop_last() == items@.take(i as int));
            assert(items@.take(i + 1).last() == items@[i as int]);
        }
        i = i + 1;
    }
    proof {
        assert(items@.take(items.len() as int) == items@);
        reveal_strlit("");
    }
    let class = concat("flex flex-wrap gap-2 ", opts.classes);
    div_class(class.as_str(), body.as_str())
}

/// Markdown body rendered as a field.
pub struct FieldMarkdown<'a> {
    pub value: &'a str,
    pub classes: &'a str,
}

/// The HTML that pulldown-cmark's own renderer writes for `md`, with heading
/// attributes, strikethrough, tables and task lists enabled.
pub uninterp spec fn cmark_html(md: Seq<char>) -> Seq<char>;

/// Calls `pulldown_cmark::Parser::new_ext` with those four extensions and
/// `pulldown_cmark::html::push_html` into an empty string. Claimed: the text
/// is [`cmark_html`] of `md`.
#[verifier::external_body]
fn cmark_push_html(md: &str) -> (r: String)
    ensures
        r@ == cmark_html(md@),
{
    let mut options = pulldown_cmark::Options::empty();
    options.insert(pulldown_cmark::Options::ENABLE_HEADING_ATTRIBUTES);
    options.insert(pulldown_cmark::Options::ENABLE_STRIKETHROUGH);
    options.insert(pulldown_cmark::Options::ENABLE_TABLES);
    options.insert(pulldown_cmark::Options::ENABLE_TASKLISTS);
    let parser = pulldown_cmark::Parser::new_ext(md, options);
    let mut html_out = String::new();
    pulldown_cmark::html::push_html(&mut html_out, parser);
    html_out
}

/// Parse markdown to HTML with the common extensions.
pub fn render_markdown(md: &str) -> (r: String)
    ensures
        r@ == cmark_html(md@),
{
    cmark_push_html(md)
}

/// The prose container class of a markdown field.
pub open spec fn markdown_class(classes: Seq<char>) -> Seq<char> {
    "whitespace-pre-wrap border border-base-300 p-2 rounded-md prose max-w-none "@ + classes
}

/// Wrap already rendered markdown in the prose container.
pub fn field_markdown_html(rendered: &str, classes: &str) -> (r: String)
    ensures
        r@ == div_spec(markdown_class(classes@), rendered@),
{
    let class = concat("whitespace-pre-wrap border border-base-300 p-2 rounded-md prose max-w-none ", classes);
    div_class(class.as_str(), rendered)
}

/// Render markdown content in a prose container.
pub fn field_markdown(opts: FieldMarkdown) -> (r: String)
    ensures
        r@ == (if opts.value@.len() == 0 {
            seq![]
        } else {
            div_spec(markdown_class(opts.classes@), cmark_html(opts.value@))
        }),
{
    if opts.value.is_empty() {
        proof {
            reveal_strlit("");
        }
        return String::new();
    }
    let rendered = render_markdown(opts.value);
    field_markdown_html(rendered.as_str(), opts.classes)
}

} // verus!
