//! Shared HTMX attribute helpers built on [`SwapKey`]: region forms, row
//! clicks that navigate or pick a foreign-key value, and modal openers.

use vstd::prelude::*;

use crate::route::trailing_slash_spec;

use crate::attrs::HtmlAttrs;
use crate::json::{json_object, json_object_spec, json_str, json_string_of, parse_u64, parse_u64_spec};
use crate::route::{FkSelectGet, FragmentGet, FragmentPost, RouteUrl};
use crate::swap::{
    form_hx_get_for_url, form_hx_get_route, form_hx_post_for_url, form_hx_post_route, get_spec,
    nav_app_layout_spec, nav_main_attrs, no_attrs, post_selector_spec, row_click_class, with_attr,
    Attrs, SwapKey,
};
use crate::text::{decimal, decimal_string, push_str};

verus! {

/// HTMX target for appending modals as children of `document.body`.
pub const HTMX_TARGET_BODY_MODAL: &'static str = "body";

/// HTMX swap for appending modals as children of `document.body`.
pub const HTMX_SWAP_BODY_MODAL: &'static str = "beforeend";

/// Declarative POST form attrs targeting a typed region.
pub fn form_post_region<K: SwapKey>(action: &str) -> (r: HtmlAttrs)
    ensures
        r@ == post_selector_spec(action@, K::SELECTOR@),
{
    form_hx_post_for_url::<K>(action)
}

/// Typed POST form attrs for a fragment route value.
pub fn form_post_region_route<K: SwapKey, R: RouteUrl + FragmentPost<K>>(route: R) -> (r: HtmlAttrs)
    ensures
        r@ == post_selector_spec(route.path_spec(), K::SELECTOR@),
{
    form_hx_post_route::<K, R>(route)
}

/// Declarative GET filter form attrs targeting a typed region.
pub fn form_get_region<K: SwapKey>(action: &str) -> (r: HtmlAttrs)
    ensures
        r@ == get_spec(action@, K::SELECTOR@),
{
    form_hx_get_for_url::<K>(action)
}

/// Typed GET filter form attrs for a fragment route value.
pub fn form_get_region_route<K: SwapKey, R: RouteUrl + FragmentGet<K>>(route: R) -> (r: HtmlAttrs)
    ensures
        r@ == get_spec(route.path_spec(), K::SELECTOR@),
{
    form_hx_get_route::<K, R>(route)
}

/// Row click attrs that navigate into `#app-layout` (sidebar and main update).
pub fn row_attr_navigate(url: &str) -> (r: HtmlAttrs)
    ensures
        r@ == with_attr(nav_app_layout_spec(url@), "class"@, row_click_class()),
{
    nav_main_attrs(url)
}

/// Typed row click navigation to a route value's URL.
pub fn row_attr_navigate_route<R: RouteUrl>(route: R) -> (r: HtmlAttrs)
    ensures
        r@ == with_attr(nav_app_layout_spec(trailing_slash_spec(route.path_spec())), "class"@, row_click_class()),
{
    let u = route.url();
    row_attr_navigate(u.as_str())
}

/// The JSON of a picked value: a number when it reads as a `u64`, else a string.
pub open spec fn value_json(value: Seq<char>) -> Seq<char> {
    match parse_u64_spec(value) {
        Some(n) => decimal(n as nat),
        None => json_string_of(value),
    }
}

/// `es` with each `(k, v)` of `extra` set, in order, to the JSON string of `v`.
pub open spec fn with_json_strings(es: Attrs, extra: Seq<(Seq<char>, Seq<char>)>) -> Attrs
    decreases extra.len(),
{
    if extra.len() == 0 {
        es
    } else {
        with_json_strings(with_attr(es, extra[0].0, json_string_of(extra[0].1)), extra.drop_first())
    }
}

/// The `fk-select` event detail: `display`, `name`, `value`, then the extras
/// (an extra may replace one of the three).
pub open spec fn select_detail(
    name: Seq<char>,
    value: Seq<char>,
    display: Seq<char>,
    extra: Seq<(Seq<char>, Seq<char>)>,
) -> Attrs {
    with_json_strings(
        with_attr(
            with_attr(with_attr(no_attrs(), "name"@, json_string_of(name)), "value"@, value_json(value)),
            "display"@,
            json_string_of(display),
        ),
        extra,
    )
}

/// The `@click` handler of a picker row: dispatch `fk-select`, close the dialog.
pub open spec fn select_click(detail: Attrs) -> Seq<char> {
    "$dispatch('fk-select', "@ + json_object_spec(detail)
        + "); $event.currentTarget.closest('dialog.modal')?.remove()"@
}

/// The attributes of a picker row.
pub open spec fn select_row_spec(
    name: Seq<char>,
    value: Seq<char>,
    display: Seq<char>,
    extra: Seq<(Seq<char>, Seq<char>)>,
) -> Attrs {
    with_attr(
        with_attr(no_attrs(), "class"@, row_click_class()),
        "@click"@,
        select_click(select_detail(name, value, display, extra)),
    )
}

/// The JSON text of a picked value.
fn value_json_text(value: &str) -> (r: String)
    ensures
        r@ == value_json(value@),
{
    match parse_u64(value) {
        Some(n) => decimal_string(n),
        None => json_str(value),
    }
}

/// Row click attrs that dispatch `fk-select` and close the enclosing modal.
pub fn row_attr_select(name: &str, value: &str, display: &str) -> (r: HtmlAttrs)
    ensures
        r@ == select_row_spec(name@, value@, display@, seq![]),
{
    let extra: Vec<(&str, &str)> = Vec::new();
    let r = row_attr_select_extra(name, value, display, &extra);
    assert(extra@.map_values(|p: (&str, &str)| (p.0@, p.1@)) =~= Seq::<(Seq<char>, Seq<char>)>::empty());
    r
}

/// Like [`row_attr_select`], merging `extra` key/value pairs (as JSON strings)
/// into the event detail — e.g. a product's price for line-rate autofill.
pub fn row_attr_select_extra(name: &str, value: &str, display: &str, extra: &Vec<(&str, &str)>) -> (r: HtmlAttrs)
    ensures
        r@ == select_row_spec(name@, value@, display@, extra@.map_values(|p: (&str, &str)| (p.0@, p.1@))),
{
    let ghost ex = extra@.map_values(|p: (&str, &str)| (p.0@, p.1@));
    let vj = value_json_text(value);
    let nj = json_str(name);
    let dj = json_str(display);
    let mut detail = HtmlAttrs::new().set("name", nj.as_str()).set("value", vj.as_str()).set("display", dj.as_str());
    let ghost base = detail@;
    let mut i: usize = 0;
    assert(ex.skip(0) == ex);
    while i < extra.len()
        invariant
            i <= extra.len(),
            ex == extra@.map_values(|p: (&str, &str)| (p.0@, p.1@)),
            with_json_strings(base, ex) == with_json_strings(detail@, ex.skip(i as int)),
        decreases extra.len() - i,
    {
        let (k, v) = extra[i];
        let vs = json_str(v);
        assert(ex.skip(i as int)[0] == ex[i as int]);
        assert(ex.skip(i as int).drop_first() == ex.skip(i + 1));
        detail = detail.set(k, vs.as_str());
        i = i + 1;
    }
    assert(ex.skip(extra@.len() as int) =~= Seq::<(Seq<char>, Seq<char>)>::empty());
    let obj = json_object(&detail);
    let mut js = String::new();
    push_str(&mut js, "$dispatch('fk-select', ");
    push_str(&mut js, obj.as_str());
    push_str(&mut js, "); $event.currentTarget.closest('dialog.modal')?.remove()");
    assert(js@ == select_click(detail@)) by {
        assert(Seq::<char>::empty() + "$dispatch('fk-select', "@ == "$dispatch('fk-select', "@);
    }
    HtmlAttrs::new().set("class", "cursor-pointer hover:bg-base-200 transition-colors").set("@click", js.as_str())
}

/// What `format!("{:?}", s)` writes for a string: Rust's quoted, escaped form.
pub uninterp spec fn debug_quoted(s: Seq<char>) -> Seq<char>;

/// `<str as Debug>::fmt` through `format!`: the string in double quotes with
/// Rust's debug escapes.
#[verifier::external_body]
fn debug_str(s: &str) -> (r: String)
    ensures
        r@ == debug_quoted(s@),
{
    format!("{:?}", s)
}

/// The detail of an `fk-multi-select` event: all three values as JSON strings.
pub open spec fn multi_detail(name: Seq<char>, value: Seq<char>, display: Seq<char>) -> Attrs {
    with_attr(
        with_attr(with_attr(no_attrs(), "name"@, json_string_of(name)), "value"@, json_string_of(value)),
        "display"@,
        json_string_of(display),
    )
}

/// The Alpine `:class` expression that highlights a row already selected in
/// the `m2mSelections` store.
pub open spec fn multi_class_expr(name: Seq<char>, value: Seq<char>) -> Seq<char> {
    "((Alpine.store('m2mSelections') && Alpine.store('m2mSelections')["@ + debug_quoted(name)
        + "]) || []).some(item => item.Key === "@ + debug_quoted(value)
        + ") ? 'bg-success text-success-content hover:bg-success border-success' : 'hover:bg-base-200'"@
}

/// The attributes of a many-to-many picker row.
pub open spec fn select_multi_spec(name: Seq<char>, value: Seq<char>, display: Seq<char>) -> Attrs {
    with_attr(
        with_attr(with_attr(no_attrs(), "class"@, "cursor-pointer transition-colors"@), ":class"@, multi_class_expr(name, value)),
        "@click"@,
        "$dispatch('fk-multi-select', "@ + json_object_spec(multi_detail(name, value, display)) + ")"@,
    )
}

/// Row click attrs for many-to-many pickers.
pub fn row_attr_select_multi(name: &str, value: &str, display: &str) -> (r: HtmlAttrs)
    ensures
        r@ == select_multi_spec(name@, value@, display@),
{
    let nj = json_str(name);
    let vj = json_str(value);
    let dj = json_str(display);
    let detail = HtmlAttrs::new().set("name", nj.as_str()).set("value", vj.as_str()).set("display", dj.as_str());
    let obj = json_object(&detail);
    let mut js = String::new();
    push_str(&mut js, "$dispatch('fk-multi-select', ");
    push_str(&mut js, obj.as_str());
    push_str(&mut js, ")");
    let nd = debug_str(name);
    let vd = debug_str(value);
    let mut class_expr = String::new();
    push_str(&mut class_expr, "((Alpine.store('m2mSelections') && Alpine.store('m2mSelections')[");
    push_str(&mut class_expr, nd.as_str());
    push_str(&mut class_expr, "]) || []).some(item => item.Key === ");
    push_str(&mut class_expr, vd.as_str());
    push_str(
        &mut class_expr,
        ") ? 'bg-success text-success-content hover:bg-success border-success' : 'hover:bg-base-200'",
    );
    assert(js@ == "$dispatch('fk-multi-select', "@ + json_object_spec(detail@) + ")"@) by {
        assert(Seq::<char>::empty() + "$dispatch('fk-multi-select', "@ == "$dispatch('fk-multi-select', "@);
    }
    assert(class_expr@ == multi_class_expr(name@, value@)) by {
        assert(Seq::<char>::empty() + "((Alpine.store('m2mSelections') && Alpine.store('m2mSelections')["@
            == "((Alpine.store('m2mSelections') && Alpine.store('m2mSelections')["@);
    }
    HtmlAttrs::new()
        .set("class", "cursor-pointer transition-colors")
        .set(":class", class_expr.as_str())
        .set("@click", js.as_str())
}

/// Attributes that open a modal appended to `body`.
pub open spec fn modal_open_spec(href: Seq<char>) -> Attrs {
    with_attr(
        with_attr(
            with_attr(with_attr(no_attrs(), "hx-get"@, href), "hx-target"@, HTMX_TARGET_BODY_MODAL@),
            "hx-swap"@,
            HTMX_SWAP_BODY_MODAL@,
        ),
        "hx-push-url"@,
        "false"@,
    )
}

/// Attrs to open a modal into the modal host (`body`, `beforeend`).
pub fn modal_open_attrs(href: &str) -> (r: HtmlAttrs)
    ensures
        r@ == modal_open_spec(href@),
{
    HtmlAttrs::new()
        .set("hx-get", href)
        .set("hx-target", HTMX_TARGET_BODY_MODAL)
        .set("hx-swap", HTMX_SWAP_BODY_MODAL)
        .set("hx-push-url", "false")
}

/// Typed picker open attrs for routes declared with `fk_select` / `multi_select`.
pub fn modal_picker_open_route<R: RouteUrl + FkSelectGet<K, M>, K: SwapKey, M: SwapKey>(route: R) -> (r: HtmlAttrs)
    ensures
        r@ == modal_open_spec(trailing_slash_spec(route.path_spec())),
{
    let u = route.url();
    modal_open_attrs(u.as_str())
}

/// `<head hx-head="append">…</head>` around already-rendered children.
pub open spec fn head_append_spec(children: Seq<char>) -> Seq<char> {
    "<head hx-head=\"append\">"@ + children + "</head>"@
}

/// Response `<head>` for hx-head append swaps.
pub fn hx_head_append(children: &str) -> (r: String)
    ensures
        r@ == head_append_spec(children@),
{
    let mut out = String::new();
    push_str(&mut out, "<head hx-head=\"append\">");
    push_str(&mut out, children);
    push_str(&mut out, "</head>");
    assert(Seq::<char>::empty() + "<head hx-head=\"append\">"@ == "<head hx-head=\"append\">"@);
    out
}

/// An append-only response head before a partial body fragment.
pub fn hx_partial_with_head(head: &str, body: &str) -> (r: String)
    ensures
        r@ == head_append_spec(head@) + body@,
{
    let mut out = hx_head_append(head);
    push_str(&mut out, body);
    out
}

} // verus!
