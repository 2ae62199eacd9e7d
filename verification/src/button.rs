//! Action buttons for forms, navigation, downloads and modals. Internal links
//! navigate the app layout over HTMX; external ones disable boosting.

use vstd::prelude::*;

use crate::route::trailing_slash_spec;

use crate::attrs::{merge_entries, render_entries, HtmlAttrs};
use crate::html::{escape_html, icon, icon_spec, push_escaped_html};
use crate::htmx::{HTMX_SWAP_BODY_MODAL, HTMX_TARGET_BODY_MODAL};
use crate::route::RouteUrl;
use crate::swap::{
    form_hx_boost_post_main, hx_nav_app_layout_for_url, nav_app_layout_spec, no_attrs, with_attr, Attrs,
    SwapKey,
};
use crate::text::{escape_attr_seq, has_char, push_char, push_escaped_attr, push_str, starts_with, to_owned};

verus! {

/// `hx-select` value that stops a modal response from inheriting a selector.
pub const HTMX_SELECT_UNSET: &'static str = "unset";

/// An absolute `http(s)`, `mailto:` or `tel:` link.
pub open spec fn is_external_href_spec(href: Seq<char>) -> bool {
    starts_with(href, "http://"@) || starts_with(href, "https://"@) || starts_with(href, "mailto:"@)
        || starts_with(href, "tel:"@)
}

/// Whether `href` leaves the app.
pub fn is_external_href(href: &str) -> (r: bool)
    ensures
        r == is_external_href_spec(href@),
{
    let v = crate::text::chars_of(href);
    crate::text::str_starts_with(&v, "http://") || crate::text::str_starts_with(&v, "https://")
        || crate::text::str_starts_with(&v, "mailto:") || crate::text::str_starts_with(&v, "tel:")
}

/// HTMX attributes of a link: external links are not boosted, app paths
/// navigate `#app-layout`, anything else gets none.
pub open spec fn link_hx_spec(href: Seq<char>) -> Attrs {
    if is_external_href_spec(href) {
        with_attr(no_attrs(), "hx-boost"@, "false"@)
    } else if href.len() > 0 && href[0] == '/' {
        nav_app_layout_spec(href)
    } else {
        no_attrs()
    }
}

/// The HTMX attributes of a link.
pub fn link_hx_attrs(href: &str) -> (r: HtmlAttrs)
    ensures
        r@ == link_hx_spec(href@),
{
    if is_external_href(href) {
        HtmlAttrs::new().set("hx-boost", "false")
    } else {
        let v = crate::text::chars_of(href);
        if v.len() > 0 && v[0] == '/' {
            hx_nav_app_layout_for_url(href)
        } else {
            HtmlAttrs::new()
        }
    }
}

/// `"{prefix} {classes}"`, plus `extra` when an icon sits beside a non-empty label.
pub open spec fn button_class(prefix: Seq<char>, classes: Seq<char>, has_icon: bool, label: Seq<char>, extra: Seq<char>) -> Seq<char> {
    prefix + seq![' '] + classes + (if has_icon && label.len() > 0 { extra } else { seq![] })
}

/// Build a button class.
fn button_class_exec(prefix: &str, classes: &str, has_icon: bool, label: &str, extra: &str) -> (r: String)
    ensures
        r@ == button_class(prefix@, classes@, has_icon, label@, extra@),
{
    let mut c = to_owned(prefix);
    push_char(&mut c, ' ');
    push_str(&mut c, classes);
    if has_icon && !label.is_empty() {
        push_str(&mut c, extra);
    } else {
        assert(c@ + Seq::<char>::empty() == c@);
    }
    c
}

/// The icon before a label, if any.
pub open spec fn icon_opt(name: Option<&str>) -> Seq<char> {
    match name {
        Some(n) => icon_spec(n@, ""@, Seq::empty()),
        None => seq![],
    }
}

/// Append the icon, if any, then the escaped label.
pub(crate) fn push_icon_label(out: &mut String, name: Option<&str>, label: &str)
    ensures
        final(out)@ == old(out)@ + icon_opt(name) + escape_html(label@),
{
    let ghost start = out@;
    match name {
        Some(n) => {
            let i = icon(n, "");
            push_str(out, i.as_str());
        },
        None => {
            assert(start + Seq::<char>::empty() == start);
        },
    }
    push_escaped_html(out, label);
}

/// Primary form submit control.
pub struct ButtonSubmit<'a> {
    pub label: &'a str,
    pub icon_name: Option<&'a str>,
    pub classes: &'a str,
    pub attrs: HtmlAttrs,
}

impl Default for ButtonSubmit<'_> {
    fn default() -> (r: Self)
        ensures
            r.label@ == "Submit"@,
            r.icon_name is None,
            r.classes@ == ""@,
            r.attrs@ == Seq::<(Seq<char>, Seq<char>)>::empty(),
    {
        ButtonSubmit { label: "Submit", icon_name: None, classes: "", attrs: HtmlAttrs::new() }
    }
}

/// The HTML of a submit button.
pub open spec fn button_submit_spec(label: Seq<char>, icon: Option<&str>, classes: Seq<char>, attrs: Attrs) -> Seq<char> {
    "<button type=\"submit\" class=\""@ + escape_attr_seq(
        button_class("btn btn-primary"@, classes, icon is Some, label, " inline-flex items-center gap-2"@),
    ) + "\""@ + render_entries(attrs) + ">"@ + icon_opt(icon) + escape_html(label) + "</button>"@
}

/// Render a styled submit button (optional icon).
pub fn button_submit(opts: &ButtonSubmit) -> (r: String)
    ensures
        r@ == button_submit_spec(opts.label@, opts.icon_name, opts.classes@, opts.attrs@),
{
    let class = button_class_exec("btn btn-primary", opts.classes, opts.icon_name.is_some(), opts.label, " inline-flex items-center gap-2");
    let mut out = to_owned("<button type=\"submit\" class=\"");
    push_escaped_attr(&mut out, class.as_str());
    push_str(&mut out, "\"");
    let a = opts.attrs.as_string();
    push_str(&mut out, a.as_str());
    push_str(&mut out, ">");
    push_icon_label(&mut out, opts.icon_name, opts.label);
    push_str(&mut out, "</button>");
    out
}

/// Navigation link styled as a button.
pub struct ButtonLink<'a> {
    pub label: &'a str,
    pub href: &'a str,
    pub icon_name: Option<&'a str>,
    pub classes: &'a str,
    pub attrs: HtmlAttrs,
}

impl Default for ButtonLink<'_> {
    fn default() -> (r: Self)
        ensures
            r.label@ == ""@,
            r.href@ == "#"@,
            r.icon_name is None,
            r.classes@ == ""@,
            r.attrs@ == Seq::<(Seq<char>, Seq<char>)>::empty(),
    {
        ButtonLink { label: "", href: "#", icon_name: None, classes: "", attrs: HtmlAttrs::new() }
    }
}

/// The HTML of a link button.
pub open spec fn button_link_spec(label: Seq<char>, href: Seq<char>, icon: Option<&str>, classes: Seq<char>, attrs: Attrs) -> Seq<char> {
    "<a href=\""@ + escape_attr_seq(href) + "\" class=\""@ + escape_attr_seq(
        button_class("btn"@, classes, icon is Some, label, " flex items-center gap-2"@),
    ) + "\""@ + render_entries(merge_entries(link_hx_spec(href), attrs)) + ">"@ + icon_opt(icon) + escape_html(label)
        + "</a>"@
}

/// Render a link button with optional icon.
pub fn button_link(opts: &ButtonLink) -> (r: String)
    ensures
        r@ == button_link_spec(opts.label@, opts.href@, opts.icon_name, opts.classes@, opts.attrs@),
{
    let class = button_class_exec("btn", opts.classes, opts.icon_name.is_some(), opts.label, " flex items-center gap-2");
    let attrs = link_hx_attrs(opts.href).merge(&opts.attrs);
    let mut out = to_owned("<a href=\"");
    push_escaped_attr(&mut out, opts.href);
    push_str(&mut out, "\" class=\"");
    push_escaped_attr(&mut out, class.as_str());
    push_str(&mut out, "\"");
    let a = attrs.as_string();
    push_str(&mut out, a.as_str());
    push_str(&mut out, ">");
    push_icon_label(&mut out, opts.icon_name, opts.label);
    push_str(&mut out, "</a>");
    out
}

/// App-pane navigation link with a pre-built URL.
pub fn button_link_url(href: &str, label: &str, classes: &str) -> (r: String)
    ensures
        r@ == button_link_spec(label@, href@, None, classes@, Seq::empty()),
{
    button_link(&ButtonLink { label, href, icon_name: None, classes, attrs: HtmlAttrs::new() })
}

/// App-pane navigation link to a typed route value's URL.
pub fn button_link_route<R: RouteUrl>(route: R, label: &str, classes: &str) -> (r: String)
    ensures
        r@ == button_link_spec(label@, trailing_slash_spec(route.path_spec()), None, classes@, Seq::empty()),
{
    let href = route.url();
    button_link_url(href.as_str(), label, classes)
}

/// POST action wrapped in a one-button boosted form.
pub struct ButtonPost<'a> {
    pub label: &'a str,
    pub action: &'a str,
    pub icon_name: Option<&'a str>,
    pub classes: &'a str,
    pub attrs: HtmlAttrs,
}

impl Default for ButtonPost<'_> {
    fn default() -> (r: Self)
        ensures
            r.label@ == ""@,
            r.action@ == ""@,
            r.icon_name is None,
            r.classes@ == ""@,
            r.attrs@ == Seq::<(Seq<char>, Seq<char>)>::empty(),
    {
        ButtonPost { label: "", action: "", icon_name: None, classes: "", attrs: HtmlAttrs::new() }
    }
}

/// The HTML of a POST button.
pub open spec fn button_post_spec(label: Seq<char>, action: Seq<char>, icon: Option<&str>, classes: Seq<char>, attrs: Attrs) -> Seq<char> {
    "<form"@ + render_entries(crate::swap::boost_post_main_spec(action)) + " @click.stop=\"\">"@
        + "<button type=\"submit\" class=\""@ + escape_attr_seq(
        button_class("btn"@, classes, icon is Some, label, " inline-flex items-center gap-2"@),
    ) + "\""@ + render_entries(attrs) + ">"@ + icon_opt(icon) + escape_html(label) + "</button></form>"@
}

/// Render a POST button inside a boosted form targeting the app layout.
pub fn button_post(opts: &ButtonPost) -> (r: String)
    ensures
        r@ == button_post_spec(opts.label@, opts.action@, opts.icon_name, opts.classes@, opts.attrs@),
{
    let class = button_class_exec("btn", opts.classes, opts.icon_name.is_some(), opts.label, " inline-flex items-center gap-2");
    let form_attrs = form_hx_boost_post_main(opts.action);
    let mut out = to_owned("<form");
    let f = form_attrs.as_string();
    push_str(&mut out, f.as_str());
    push_str(&mut out, " @click.stop=\"\">");
    push_str(&mut out, "<button type=\"submit\" class=\"");
    push_escaped_attr(&mut out, class.as_str());
    push_str(&mut out, "\"");
    let a = opts.attrs.as_string();
    push_str(&mut out, a.as_str());
    push_str(&mut out, ">");
    push_icon_label(&mut out, opts.icon_name, opts.label);
    push_str(&mut out, "</button></form>");
    out
}

/// Boosted POST button for a typed route (e.g. logout), posting to its path.
pub fn button_post_route<R: RouteUrl>(route: R, label: &str, classes: &str) -> (r: String)
    ensures
        r@ == button_post_spec(label@, route.path_spec(), None, classes@, Seq::empty()),
{
    let action = route.path();
    button_post(&ButtonPost { label, action: action.as_str(), icon_name: None, classes, attrs: HtmlAttrs::new() })
}

/// Reset all inputs of the enclosing form.
pub struct ButtonClear<'a> {
    pub label: &'a str,
    pub classes: &'a str,
    pub attrs: HtmlAttrs,
}

impl Default for ButtonClear<'_> {
    fn default() -> (r: Self)
        ensures
            r.label@ == "Clear"@,
            r.classes@ == ""@,
            r.attrs@ == Seq::<(Seq<char>, Seq<char>)>::empty(),
    {
        ButtonClear { label: "Clear", classes: "", attrs: HtmlAttrs::new() }
    }
}

/// The script of a clear button.
pub const CLEAR_ONCLICK: &'static str = " onclick=\"this.closest('form').querySelectorAll('input,select,textarea').forEach(el => { el.value = ''; });\">";

/// The HTML of a clear button (an empty label reads "Clear").
pub open spec fn button_clear_spec(label: Seq<char>, classes: Seq<char>, attrs: Attrs) -> Seq<char> {
    "<button type=\"button\" class=\""@ + escape_attr_seq("btn btn-ghost my-2"@ + seq![' '] + classes) + "\""@
        + render_entries(attrs) + CLEAR_ONCLICK@ + escape_html(if label.len() == 0 { "Clear"@ } else { label })
        + "</button>"@
}

/// Render a ghost button that empties the inputs of its form.
pub fn button_clear(opts: &ButtonClear) -> (r: String)
    ensures
        r@ == button_clear_spec(opts.label@, opts.classes@, opts.attrs@),
{
    let label = if opts.label.is_empty() { "Clear" } else { opts.label };
    let mut class = to_owned("btn btn-ghost my-2");
    push_char(&mut class, ' ');
    push_str(&mut class, opts.classes);
    assert(class@ =~= "btn btn-ghost my-2"@ + seq![' '] + opts.classes@);
    let mut out = to_owned("<button type=\"button\" class=\"");
    push_escaped_attr(&mut out, class.as_str());
    push_str(&mut out, "\"");
    let a = opts.attrs.as_string();
    push_str(&mut out, a.as_str());
    push_str(&mut out, CLEAR_ONCLICK);
    push_escaped_html(&mut out, label);
    push_str(&mut out, "</button>");
    out
}

/// File download link (`download`, boost disabled).
pub struct ButtonDownload<'a> {
    pub label: &'a str,
    pub href: &'a str,
    pub classes: &'a str,
    pub attrs: HtmlAttrs,
}

impl Default for ButtonDownload<'_> {
    fn default() -> (r: Self)
        ensures
            r.label@ == "Download"@,
            r.href@ == "#"@,
            r.classes@ == ""@,
            r.attrs@ == Seq::<(Seq<char>, Seq<char>)>::empty(),
    {
        ButtonDownload { label: "Download", href: "#", classes: "", attrs: HtmlAttrs::new() }
    }
}

/// The HTML of a download link.
pub open spec fn button_download_spec(label: Seq<char>, href: Seq<char>, classes: Seq<char>, attrs: Attrs) -> Seq<char> {
    "<a href=\""@ + escape_attr_seq(href) + "\" download class=\""@ + escape_attr_seq("btn"@ + seq![' '] + classes)
        + "\""@ + render_entries(with_attr(attrs, "hx-boost"@, "false"@)) + ">"@ + escape_html(label) + "</a>"@
}

/// Render a download link styled as a button.
pub fn button_download(opts: &ButtonDownload) -> (r: String)
    ensures
        r@ == button_download_spec(opts.label@, opts.href@, opts.classes@, opts.attrs@),
{
    let attrs = opts.attrs.duplicate().set("hx-boost", "false");
    let mut class = to_owned("btn");
    push_char(&mut class, ' ');
    push_str(&mut class, opts.classes);
    assert(class@ =~= "btn"@ + seq![' '] + opts.classes@);
    let mut out = to_owned("<a href=\"");
    push_escaped_attr(&mut out, opts.href);
    push_str(&mut out, "\" download class=\"");
    push_escaped_attr(&mut out, class.as_str());
    push_str(&mut out, "\"");
    let a = attrs.as_string();
    push_str(&mut out, a.as_str());
    push_str(&mut out, ">");
    push_escaped_html(&mut out, opts.label);
    push_str(&mut out, "</a>");
    out
}

/// File-download link to a typed route value's path.
pub fn button_download_route<R: RouteUrl>(route: R, label: &str, classes: &str) -> (r: String)
    ensures
        r@ == button_download_spec(label@, route.path_spec(), classes@, Seq::empty()),
{
    let href = route.path();
    button_download(&ButtonDownload { label, href: href.as_str(), classes, attrs: HtmlAttrs::new() })
}

/// Button that loads read-only modal markup into `body`.
pub struct ButtonModal<'a> {
    pub label: &'a str,
    pub href: &'a str,
    pub icon_name: Option<&'a str>,
    pub classes: &'a str,
    pub attrs: HtmlAttrs,
}

impl Default for ButtonModal<'_> {
    fn default() -> (r: Self)
        ensures
            r.label@ == ""@,
            r.href@ == "#"@,
            r.icon_name is None,
            r.classes@ == ""@,
            r.attrs@ == Seq::<(Seq<char>, Seq<char>)>::empty(),
    {
        ButtonModal { label: "", href: "#", icon_name: None, classes: "", attrs: HtmlAttrs::new() }
    }
}

/// A modal-opening button inside a host `<div>` of class `host_class`.
pub open spec fn modal_button_spec(host_class: Seq<char>, label: Seq<char>, href: Seq<char>, icon: Option<&str>, classes: Seq<char>, attrs: Attrs) -> Seq<char> {
    "<div class=\""@ + escape_html(host_class) + "\">"@ + "<button type=\"button\" class=\""@ + escape_attr_seq(
        button_class("btn"@, classes, icon is Some, label, " inline-flex items-center gap-2"@),
    ) + "\" hx-get=\""@ + escape_attr_seq(href) + "\" hx-target=\""@ + HTMX_TARGET_BODY_MODAL@ + "\" hx-select=\""@
        + HTMX_SELECT_UNSET@ + "\" hx-swap=\""@ + HTMX_SWAP_BODY_MODAL@ + "\" hx-push-url=\"false\""@
        + render_entries(attrs) + ">"@ + icon_opt(icon) + escape_html(label) + "</button>"@ + "</div>"@
}

/// Render a modal-opening button.
fn modal_button(host_class: &str, label: &str, href: &str, icon_name: Option<&str>, classes: &str, attrs: &HtmlAttrs) -> (r: String)
    ensures
        r@ == modal_button_spec(host_class@, label@, href@, icon_name, classes@, attrs@),
{
    let class = button_class_exec("btn", classes, icon_name.is_some(), label, " inline-flex items-center gap-2");
    let mut out = to_owned("<div class=\"");
    push_escaped_html(&mut out, host_class);
    push_str(&mut out, "\">");
    push_str(&mut out, "<button type=\"button\" class=\"");
    push_escaped_attr(&mut out, class.as_str());
    push_str(&mut out, "\" hx-get=\"");
    push_escaped_attr(&mut out, href);
    push_str(&mut out, "\" hx-target=\"");
    push_str(&mut out, HTMX_TARGET_BODY_MODAL);
    push_str(&mut out, "\" hx-select=\"");
    push_str(&mut out, HTMX_SELECT_UNSET);
    push_str(&mut out, "\" hx-swap=\"");
    push_str(&mut out, HTMX_SWAP_BODY_MODAL);
    push_str(&mut out, "\" hx-push-url=\"false\"");
    let a = attrs.as_string();
    push_str(&mut out, a.as_str());
    push_str(&mut out, ">");
    push_icon_label(&mut out, icon_name, label);
    push_str(&mut out, "</button>");
    push_str(&mut out, "</div>");
    out
}

/// Render an HTMX modal opener (`hx-get` into `body`).
pub fn button_modal(opts: &ButtonModal) -> (r: String)
    ensures
        r@ == modal_button_spec("w-full fk-modal-host"@, opts.label@, opts.href@, opts.icon_name, opts.classes@, opts.attrs@),
{
    modal_button("w-full fk-modal-host", opts.label, opts.href, opts.icon_name, opts.classes, &opts.attrs)
}

/// Modal opener for a typed GET route value's URL.
pub fn button_modal_route<R: RouteUrl>(route: R, label: &str, classes: &str) -> (r: String)
    ensures
        r@ == modal_button_spec("w-full fk-modal-host"@, label@, trailing_slash_spec(route.path_spec()), None, classes@, Seq::empty()),
{
    let href = route.url();
    button_modal(&ButtonModal { label, href: href.as_str(), icon_name: None, classes, attrs: HtmlAttrs::new() })
}

/// Modal form opener: GET loads a dialog into the modal host.
pub struct ButtonModalForm<'a> {
    pub label: &'a str,
    pub href: &'a str,
    pub name: &'a str,
    pub form_post_url: &'a str,
    pub modal_uid: &'a str,
    pub icon_name: Option<&'a str>,
    pub classes: &'a str,
    pub attrs: HtmlAttrs,
}

impl Default for ButtonModalForm<'_> {
    fn default() -> (r: Self)
        ensures
            r.label@ == ""@,
            r.href@ == "#"@,
            r.name@ == ""@,
            r.form_post_url@ == ""@,
            r.modal_uid@ == ""@,
            r.icon_name is None,
            r.classes@ == ""@,
            r.attrs@ == Seq::<(Seq<char>, Seq<char>)>::empty(),
    {
        ButtonModalForm {
            label: "",
            href: "#",
            name: "",
            form_post_url: "",
            modal_uid: "",
            icon_name: None,
            classes: "",
            attrs: HtmlAttrs::new(),
        }
    }
}

/// `href` with `name=<name>` appended (after `&` or `?`) when `name` is set.
pub open spec fn with_name_query(href: Seq<char>, name: Seq<char>) -> Seq<char> {
    if name.len() == 0 {
        href
    } else {
        href + (if has_char(href, '?') { seq!['&'] } else { seq!['?'] }) + "name="@ + name
    }
}

/// Render a modal form opener; appends the `name` query parameter when set.
pub fn button_modal_form(opts: &ButtonModalForm) -> (r: String)
    ensures
        r@ == modal_button_spec("fk-modal-host"@, opts.label@, with_name_query(opts.href@, opts.name@), opts.icon_name, opts.classes@, opts.attrs@),
{
    let mut href = to_owned(opts.href);
    if !opts.name.is_empty() {
        let hv = crate::text::chars_of(opts.href);
        let sep = if crate::text::contains_char(&hv, '?') { '&' } else { '?' };
        push_char(&mut href, sep);
        push_str(&mut href, "name=");
        push_str(&mut href, opts.name);
        assert(href@ =~= opts.href@ + seq![sep] + "name="@ + opts.name@);
    }
    modal_button("fk-modal-host", opts.label, href.as_str(), opts.icon_name, opts.classes, &opts.attrs)
}

/// Modal form opener for typed GET and POST routes.
pub fn button_modal_form_route<G: RouteUrl, P: RouteUrl>(get_route: G, post_route: P, label: &str, modal_uid: &str, classes: &str) -> (r: String)
    ensures
        r@ == modal_button_spec("fk-modal-host"@, label@, trailing_slash_spec(get_route.path_spec()), None, classes@, Seq::empty()),
{
    let href = get_route.url();
    let post_url = post_route.path();
    let r = button_modal_form(&ButtonModalForm {
        label,
        href: href.as_str(),
        name: "",
        form_post_url: post_url.as_str(),
        modal_uid,
        icon_name: None,
        classes,
        attrs: HtmlAttrs::new(),
    });
    proof {
        reveal_strlit("");
    }
    r
}

/// Modal form opener with a pre-built GET href and POST path.
pub fn button_modal_form_urls(href: &str, form_post_url: &str, label: &str, modal_uid: &str, classes: &str) -> (r: String)
    ensures
        r@ == modal_button_spec("fk-modal-host"@, label@, href@, None, classes@, Seq::empty()),
{
    let r = button_modal_form(&ButtonModalForm {
        label,
        href,
        name: "",
        form_post_url,
        modal_uid,
        icon_name: None,
        classes,
        attrs: HtmlAttrs::new(),
    });
    proof {
        reveal_strlit("");
    }
    r
}

/// Like [`button_modal_form`], with the modal id defaulting to `K`'s.
pub fn button_modal_form_keyed<K: SwapKey>(opts: ButtonModalForm) -> (r: String)
    ensures
        r@ == modal_button_spec("fk-modal-host"@, opts.label@, with_name_query(opts.href@, opts.name@), opts.icon_name, opts.classes@, opts.attrs@),
{
    let mut opts = opts;
    if opts.modal_uid.is_empty() {
        opts.modal_uid = K::ID;
    }
    button_modal_form(&opts)
}

} // verus!
