//! Compile-time HTMX swap region keys and the attribute sets that target them.
//!
//! Every swappable DOM region is a type implementing [`SwapKey`]. Call sites
//! use the type for `id`, `hx-target`, and out-of-band swaps — never free-form
//! selector strings.

use vstd::prelude::*;

use crate::route::trailing_slash_spec;

use crate::attrs::{HtmlAttrs, insert_sorted};
use crate::route::{
    AppPanePost, BoostPost, FileDownloadPost, FkSelectGet, FragmentGet, FragmentPost, RouteUrl,
};
use crate::text::{escape_attr_seq, push_escaped_attr, push_str};

verus! {

/// An attribute list: the entries of an [`HtmlAttrs`].
pub type Attrs = Seq<(Seq<char>, Seq<char>)>;

/// No attributes.
pub open spec fn no_attrs() -> Attrs {
    Seq::empty()
}

/// `es` with `k` set to `v` (what [`HtmlAttrs::set`] does).
pub open spec fn with_attr(es: Attrs, k: Seq<char>, v: Seq<char>) -> Attrs {
    insert_sorted(es, k, v)
}

/// A named DOM region that HTMX can target or swap out-of-band.
pub trait SwapKey {
    /// Element `id` attribute value (without `#`).
    const ID: &'static str;
    /// CSS selector for HTMX (`#` + [`ID`](Self::ID)).
    const SELECTOR: &'static str;
}

/// Page pane under the persistent topbar (sidebar + main).
pub struct AppLayoutKey;

impl SwapKey for AppLayoutKey {
    const ID: &'static str = "app-layout";
    const SELECTOR: &'static str = "#app-layout";
}

/// Inner content column (`<main>`) inside the app layout scaffold.
pub struct MainContentKey;

impl SwapKey for MainContentKey {
    const ID: &'static str = "main-content";
    const SELECTOR: &'static str = "#main-content";
}

/// Portal where modal dialogs are appended (`document.body`).
pub struct ModalHostKey;

impl SwapKey for ModalHostKey {
    const ID: &'static str = "";
    const SELECTOR: &'static str = "body";
}

/// The ids and selectors of the library's own regions.
pub proof fn lemma_region_keys()
    ensures
        AppLayoutKey::ID@ == "app-layout"@,
        AppLayoutKey::SELECTOR@ == "#app-layout"@,
        MainContentKey::ID@ == "main-content"@,
        MainContentKey::SELECTOR@ == "#main-content"@,
        ModalHostKey::ID@ == ""@,
        ModalHostKey::SELECTOR@ == "body"@,
{
}

/// `id="app-layout" hx-history-elt` — HTMX swaps this on back/forward navigation.
pub fn app_layout_history_attrs() -> (r: String)
    ensures
        r@ == "id=\""@ + AppLayoutKey::ID@ + "\" hx-history-elt"@,
{
    let mut out = String::new();
    push_str(&mut out, "id=\"");
    push_str(&mut out, AppLayoutKey::ID);
    push_str(&mut out, "\" hx-history-elt");
    assert(Seq::<char>::empty() + "id=\""@ == "id=\""@);
    out
}

/// Attributes of in-app navigation that replaces `#app-layout` from `url`.
pub open spec fn nav_app_layout_spec(url: Seq<char>) -> Attrs {
    with_attr(
        with_attr(
            with_attr(
                with_attr(with_attr(no_attrs(), "hx-get"@, url), "hx-target"@, AppLayoutKey::SELECTOR@),
                "hx-select"@,
                AppLayoutKey::SELECTOR@,
            ),
            "hx-swap"@,
            "outerHTML"@,
        ),
        "hx-push-url"@,
        "true"@,
    )
}

/// In-app navigation that replaces `#app-layout` with an explicit URL.
pub fn hx_nav_app_layout_for_url(url: &str) -> (r: HtmlAttrs)
    ensures
        r@ == nav_app_layout_spec(url@),
{
    HtmlAttrs::new()
        .set("hx-get", url)
        .set("hx-target", AppLayoutKey::SELECTOR)
        .set("hx-select", AppLayoutKey::SELECTOR)
        .set("hx-swap", "outerHTML")
        .set("hx-push-url", "true")
}

/// Typed in-app navigation for an app-pane route value (navigates to its URL).
pub fn hx_nav_app_layout<R: RouteUrl>(route: R) -> (r: HtmlAttrs)
    ensures
        r@ == nav_app_layout_spec(trailing_slash_spec(route.path_spec())),
{
    let url = route.url();
    hx_nav_app_layout_for_url(url.as_str())
}

/// Typed in-app navigation with a pre-built URL string.
pub fn hx_nav_app_layout_url(url: &str) -> (r: HtmlAttrs)
    ensures
        r@ == nav_app_layout_spec(url@),
{
    hx_nav_app_layout_for_url(url)
}

/// Class of clickable rows that navigate.
pub open spec fn row_click_class() -> Seq<char> {
    "cursor-pointer hover:bg-base-200 transition-colors"@
}

/// Row click navigation into `#app-layout`.
pub fn nav_main_attrs(url: &str) -> (r: HtmlAttrs)
    ensures
        r@ == with_attr(nav_app_layout_spec(url@), "class"@, row_click_class()),
{
    hx_nav_app_layout_for_url(url).set("class", "cursor-pointer hover:bg-base-200 transition-colors")
}

/// Attributes of a boosted POST form that replaces `#app-layout`.
pub open spec fn boost_post_main_spec(action: Seq<char>) -> Attrs {
    with_attr(
            with_attr(
                with_attr(
                    with_attr(
                        with_attr(
                            with_attr(with_attr(no_attrs(), "method"@, "POST"@), "hx-boost"@, "true"@),
                            "hx-target"@,
                            AppLayoutKey::SELECTOR@,
                        ),
                        "hx-select"@,
                        AppLayoutKey::SELECTOR@,
                    ),
                    "hx-swap"@,
                    "outerHTML"@,
                ),
                "hx-push-url"@,
                "true"@,
            ),
            "action"@,
            action,
        )
}

/// Boosted POST form that replaces `#app-layout`.
pub fn form_hx_boost_post_main(action: &str) -> (r: HtmlAttrs)
    ensures
        r@ == boost_post_main_spec(action@),
{
    HtmlAttrs::new()
        .set("method", "POST")
        .set("hx-boost", "true")
        .set("hx-target", AppLayoutKey::SELECTOR)
        .set("hx-select", AppLayoutKey::SELECTOR)
        .set("hx-swap", "outerHTML")
        .set("hx-push-url", "true")
        .set("action", action)
}

/// Sidebar menu-style navigation into [`MainContentKey`] only.
pub fn nav_content_attrs(url: &str) -> (r: HtmlAttrs)
    ensures
        r@ == with_attr(
            with_attr(
                with_attr(
                    with_attr(with_attr(no_attrs(), "hx-get"@, url@), "hx-target"@, MainContentKey::SELECTOR@),
                    "hx-select"@,
                    MainContentKey::SELECTOR@,
                ),
                "hx-swap"@,
                "outerHTML"@,
            ),
            "hx-push-url"@,
            "true"@,
        ),
{
    HtmlAttrs::new()
        .set("hx-get", url)
        .set("hx-target", MainContentKey::SELECTOR)
        .set("hx-select", MainContentKey::SELECTOR)
        .set("hx-swap", "outerHTML")
        .set("hx-push-url", "true")
}

/// `id="…"` for a region root element.
pub fn region_attrs<K: SwapKey>() -> (r: HtmlAttrs)
    ensures
        r@ == with_attr(no_attrs(), "id"@, K::ID@),
{
    HtmlAttrs::new().set("id", K::ID)
}

/// Declarative HTMX targeting attrs for a keyed region (`hx-target` + outerHTML).
pub fn hx_target<K: SwapKey>() -> (r: HtmlAttrs)
    ensures
        r@ == with_attr(with_attr(no_attrs(), "hx-target"@, K::SELECTOR@), "hx-swap"@, "outerHTML"@),
{
    hx_target_swap::<K>("outerHTML")
}

/// Like [`hx_target`] with an explicit swap strategy.
pub fn hx_target_swap<K: SwapKey>(swap: &str) -> (r: HtmlAttrs)
    ensures
        r@ == with_attr(with_attr(no_attrs(), "hx-target"@, K::SELECTOR@), "hx-swap"@, swap@),
{
    HtmlAttrs::new().set("hx-target", K::SELECTOR).set("hx-swap", swap)
}

/// Attrs for an out-of-band fragment rooted at `K` (`id` + `hx-swap-oob`).
pub fn oob_attrs<K: SwapKey>() -> (r: HtmlAttrs)
    ensures
        r@ == with_attr(with_attr(no_attrs(), "id"@, K::ID@), "hx-swap-oob"@, "true"@),
{
    oob_attrs_swap::<K>("true")
}

/// Attrs for OOB with an explicit swap strategy.
pub fn oob_attrs_swap<K: SwapKey>(swap: &str) -> (r: HtmlAttrs)
    ensures
        r@ == with_attr(with_attr(no_attrs(), "id"@, K::ID@), "hx-swap-oob"@, swap@),
{
    HtmlAttrs::new().set("id", K::ID).set("hx-swap-oob", swap)
}

/// The markup of [`oob_delete`] for region id `id`.
pub open spec fn oob_delete_spec(id: Seq<char>) -> Seq<char> {
    if id.len() == 0 {
        seq![]
    } else {
        "<div id=\""@ + escape_attr_seq(id) + "\" hx-swap-oob=\"delete\"></div>"@
    }
}

/// Markup that deletes the keyed element via HTMX OOB (`hx-swap-oob="delete"`).
pub fn oob_delete<K: SwapKey>() -> (r: String)
    ensures
        r@ == oob_delete_spec(K::ID@),
{
    let mut out = String::new();
    if K::ID.is_empty() {
        return out;
    }
    push_str(&mut out, "<div id=\"");
    push_escaped_attr(&mut out, K::ID);
    push_str(&mut out, "\" hx-swap-oob=\"delete\"></div>");
    assert(Seq::<char>::empty() + "<div id=\""@ == "<div id=\""@);
    out
}

/// Concatenate primary + OOB fragments into one response body.
pub fn fragment_response(parts: &Vec<String>) -> (r: String)
    ensures
        r@ == parts@.map_values(|p: String| p@).fold_left(Seq::<char>::empty(), |acc: Seq<char>, p: Seq<char>| acc + p),
{
    let ghost ps = parts@.map_values(|p: String| p@);
    let ghost f = |acc: Seq<char>, p: Seq<char>| acc + p;
    let mut out = String::new();
    let mut i: usize = 0;
    while i < parts.len()
        invariant
            i <= parts.len(),
            ps == parts@.map_values(|p: String| p@),
            f == (|acc: Seq<char>, p: Seq<char>| acc + p),
            out@ == ps.take(i as int).fold_left(Seq::<char>::empty(), f),
        decreases parts.len() - i,
    {
        push_str(&mut out, parts[i].as_str());
        proof {
            let t = ps.take(i + 1);
            assert(t.drop_last() == ps.take(i as int));
            assert(t.last() == parts@[i as int]@);
        }
        i = i + 1;
    }
    assert(ps.take(ps.len() as int) == ps);
    out
}

/// Attributes of a form that POSTs `url` into the region `selector` (morph, no push).
pub open spec fn post_selector_spec(url: Seq<char>, selector: Seq<char>) -> Attrs {
    with_attr(
        with_attr(
            with_attr(
                with_attr(with_attr(no_attrs(), "method"@, "POST"@), "hx-post"@, url),
                "hx-target"@,
                selector,
            ),
            "hx-swap"@,
            "outerMorph"@,
        ),
        "hx-push-url"@,
        "false"@,
    )
}

/// HTMX attrs for a form that POSTs into a typed region with an explicit URL.
pub fn form_hx_post_for_url<K: SwapKey>(url: &str) -> (r: HtmlAttrs)
    ensures
        r@ == post_selector_spec(url@, K::SELECTOR@),
{
    form_hx_post_selector(url, K::SELECTOR)
}

/// Typed POST form targeting a fragment route value (posts to its path).
pub fn form_hx_post_route<K: SwapKey, R: RouteUrl + FragmentPost<K>>(route: R) -> (r: HtmlAttrs)
    ensures
        r@ == post_selector_spec(route.path_spec(), K::SELECTOR@),
{
    let p = route.path();
    form_hx_post_for_url::<K>(p.as_str())
}

/// Typed POST form with a pre-built URL (query strings).
pub fn form_hx_post_url<K: SwapKey>(url: &str) -> (r: HtmlAttrs)
    ensures
        r@ == post_selector_spec(url@, K::SELECTOR@),
{
    form_hx_post_for_url::<K>(url)
}

/// HTMX attrs for a form that POSTs into a selector (when the key is dynamic).
pub fn form_hx_post_selector(action: &str, target: &str) -> (r: HtmlAttrs)
    ensures
        r@ == post_selector_spec(action@, target@),
{
    HtmlAttrs::new()
        .set("method", "POST")
        .set("hx-post", action)
        .set("hx-target", target)
        .set("hx-swap", "outerMorph")
        .set("hx-push-url", "false")
}

/// Attributes of a POST form that replaces `#app-layout`.
pub open spec fn post_main_spec(url: Seq<char>) -> Attrs {
    with_attr(
        with_attr(
            with_attr(post_selector_spec(url, AppLayoutKey::SELECTOR@), "hx-select"@, AppLayoutKey::SELECTOR@),
            "hx-swap"@,
            "outerHTML"@,
        ),
        "hx-push-url"@,
        "true"@,
    )
}

/// POST into [`AppLayoutKey`] with an explicit URL.
pub fn form_hx_post_main_for_url(url: &str) -> (r: HtmlAttrs)
    ensures
        r@ == post_main_spec(url@),
{
    form_hx_post_for_url::<AppLayoutKey>(url)
        .set("hx-select", AppLayoutKey::SELECTOR)
        .set("hx-swap", "outerHTML")
        .set("hx-push-url", "true")
}

/// Typed POST form that replaces `#app-layout` (app-pane routes re-render on errors).
pub fn form_hx_post_main<R: RouteUrl + AppPanePost>(route: R) -> (r: HtmlAttrs)
    ensures
        r@ == post_main_spec(route.path_spec()),
{
    let p = route.path();
    form_hx_post_main_for_url(p.as_str())
}

/// POST form for redirect-only handlers ([`BoostPost`] delete, logout, etc.).
pub fn form_hx_post_redirect<R: RouteUrl + BoostPost>(route: R) -> (r: HtmlAttrs)
    ensures
        r@ == post_main_spec(route.path_spec()),
{
    let p = route.path();
    form_hx_post_main_for_url(p.as_str())
}

/// POST into `#app-layout` with an explicit URL (query strings on app-pane routes).
pub fn form_hx_post_main_url(url: &str) -> (r: HtmlAttrs)
    ensures
        r@ == post_main_spec(url@),
{
    form_hx_post_main_for_url(url)
}

/// Attributes of a plain (unboosted) POST form.
pub open spec fn post_download_spec(action: Seq<char>) -> Attrs {
    with_attr(with_attr(with_attr(no_attrs(), "method"@, "POST"@), "action"@, action), "hx-boost"@, "false"@)
}

/// Plain POST form for file-download routes (no HTMX swap).
pub fn form_post_download(action: &str) -> (r: HtmlAttrs)
    ensures
        r@ == post_download_spec(action@),
{
    HtmlAttrs::new().set("method", "POST").set("action", action).set("hx-boost", "false")
}

/// Typed plain POST form for a file-download route value.
pub fn form_post_download_route<R: RouteUrl + FileDownloadPost>(route: R) -> (r: HtmlAttrs)
    ensures
        r@ == post_download_spec(route.path_spec()),
{
    let p = route.path();
    form_post_download(p.as_str())
}

/// Attributes of a GET filter form into `selector` (morph, pushes the URL).
pub open spec fn get_spec(url: Seq<char>, selector: Seq<char>) -> Attrs {
    with_attr(
        with_attr(
            with_attr(with_attr(with_attr(no_attrs(), "method"@, "GET"@), "hx-get"@, url), "hx-target"@, selector),
            "hx-swap"@,
            "outerMorph"@,
        ),
        "hx-push-url"@,
        "true"@,
    )
}

/// HTMX attrs for a GET form (filters) with an explicit URL.
pub fn form_hx_get_for_url<K: SwapKey>(url: &str) -> (r: HtmlAttrs)
    ensures
        r@ == get_spec(url@, K::SELECTOR@),
{
    HtmlAttrs::new()
        .set("method", "GET")
        .set("hx-get", url)
        .set("hx-target", K::SELECTOR)
        .set("hx-swap", "outerMorph")
        .set("hx-push-url", "true")
}

/// Typed GET filter form targeting a fragment route value.
pub fn form_hx_get_route<K: SwapKey, R: RouteUrl + FragmentGet<K>>(route: R) -> (r: HtmlAttrs)
    ensures
        r@ == get_spec(route.path_spec(), K::SELECTOR@),
{
    let p = route.path();
    form_hx_get_for_url::<K>(p.as_str())
}

/// Attributes of a GET filter form that swaps the whole dialog `selector` (no push).
pub open spec fn picker_get_spec(url: Seq<char>, selector: Seq<char>) -> Attrs {
    with_attr(
        with_attr(
            with_attr(with_attr(with_attr(no_attrs(), "method"@, "GET"@), "hx-get"@, url), "hx-target"@, selector),
            "hx-swap"@,
            "outerHTML"@,
        ),
        "hx-push-url"@,
        "false"@,
    )
}

/// GET filter form inside an FK picker modal: targets the dialog `M` and swaps it whole.
pub fn form_hx_get_picker_route<K: SwapKey, M: SwapKey, R: RouteUrl + FkSelectGet<K, M>>(route: R) -> (r:
    HtmlAttrs)
    ensures
        r@ == picker_get_spec(route.path_spec(), M::SELECTOR@),
{
    let p = route.path();
    let r = HtmlAttrs::new()
        .set("method", "GET")
        .set("hx-get", p.as_str())
        .set("hx-target", M::SELECTOR)
        .set("hx-swap", "outerHTML")
        .set("hx-push-url", "false");
    assert(r@ == picker_get_spec(p@, M::SELECTOR@));
    r
}

/// GET filter form with an explicit URL.
pub fn form_hx_get_url<K: SwapKey>(url: &str) -> (r: HtmlAttrs)
    ensures
        r@ == get_spec(url@, K::SELECTOR@),
{
    form_hx_get_for_url::<K>(url)
}

/// An out-of-band fragment: `inner` itself, which must be the full
/// replacement element with the matching `id`.
pub fn oob_fragment(inner: String) -> (r: String)
    ensures
        r@ == inner@,
{
    inner
}

} // verus!
