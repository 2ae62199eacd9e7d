//! Sidebar navigation menus: option structs, active-link matching, and the
//! anchor attributes the menu renderers emit.

use vstd::prelude::*;

use crate::route::trailing_slash_spec;

use crate::button::{icon_opt, push_icon_label};
use crate::html::{escape_html, push_escaped_html};
use crate::htmx::{HTMX_SWAP_BODY_MODAL, HTMX_TARGET_BODY_MODAL};
use crate::nav_origin::{with_nav_origin, with_nav_origin_spec};
use crate::swap::{AppLayoutKey, MainContentKey, SwapKey};
use crate::text::{
    chars_eq, chars_of, contains_char, ends_with, escape_attr_seq, has_char, push_escaped_attr,
    push_str, split_once, split_once_exec, starts_with, starts_with_at, str_eq, string_of, to_owned,
    trim_end_char, trim_end_char_exec,
};

verus! {

/// One sidebar entry.
pub struct SidebarMenuItem<'a> {
    pub title: &'a str,
    pub url: &'a str,
    pub icon_name: Option<&'a str>,
    pub active: bool,
}

impl Default for SidebarMenuItem<'_> {
    fn default() -> (r: Self)
        ensures
            r.title@ == ""@,
            r.url@ == "#"@,
            r.icon_name is None,
            !r.active,
    {
        SidebarMenuItem { title: "", url: "#", icon_name: None, active: false }
    }
}

/// Options for a sidebar modal-form opener rendered as a menu item (`<li><a>`).
pub struct SidebarMenuModalForm<'a> {
    pub label: &'a str,
    pub href: &'a str,
    /// Optional `name` query param identifying the form (create modals).
    pub name: &'a str,
    pub icon_name: Option<&'a str>,
    /// Extra classes on the anchor (e.g. `text-error` for destructive actions).
    pub classes: &'a str,
}

impl Default for SidebarMenuModalForm<'_> {
    fn default() -> (r: Self)
        ensures
            r.label@ == ""@,
            r.href@ == "#"@,
            r.name@ == ""@,
            r.icon_name is None,
            r.classes@ == ""@,
    {
        SidebarMenuModalForm { label: "", href: "#", name: "", icon_name: None, classes: "" }
    }
}

/// Navigable sidebar section link with optional extra path prefixes for active matching.
pub struct SidebarNavLink<'a> {
    pub key: &'a str,
    pub title: &'a str,
    pub url: &'a str,
    pub icon_name: Option<&'a str>,
    /// Extra path prefixes that mark this link active. Empty means use [`Self::url`] only.
    pub match_prefixes: &'a [&'a str],
}

/// `href` with `name=<name>` appended to its query (when `name` is non-empty).
pub open spec fn with_name_param_spec(href: Seq<char>, name: Seq<char>) -> Seq<char> {
    if name.len() == 0 {
        href
    } else if has_char(href, '?') {
        href + "&name="@ + name
    } else {
        href + "?name="@ + name
    }
}

/// Append `name=<name>` to the query of `href` when `name` is set (modal form openers).
pub fn with_name_param(href: &str, name: &str) -> (r: String)
    ensures
        r@ == with_name_param_spec(href@, name@),
{
    let mut out = to_owned(href);
    if name.is_empty() {
        return out;
    }
    let hv = chars_of(href);
    if contains_char(&hv, '?') {
        push_str(&mut out, "&name=");
    } else {
        push_str(&mut out, "?name=");
    }
    push_str(&mut out, name);
    out
}

/// The `href` of a sidebar modal-form opener.
pub fn sidebar_menu_modal_form_href(opts: &SidebarMenuModalForm) -> (r: String)
    ensures
        r@ == with_name_param_spec(opts.href@, opts.name@),
{
    with_name_param(opts.href, opts.name)
}

/// The `class` attribute text of a menu anchor (empty when inactive).
pub open spec fn menu_item_class_spec(active: bool) -> Seq<char> {
    if active {
        "menu-active"@
    } else {
        seq![]
    }
}

/// The opening `<a …>` tag of a sidebar item that swaps `target` / `select`.
pub open spec fn menu_item_anchor_spec(url: Seq<char>, target: Seq<char>, select: Seq<char>, active: bool) -> Seq<
    char,
> {
    "<a href=\""@ + escape_attr_seq(url) + "\" hx-get=\""@ + escape_attr_seq(url) + "\" hx-target=\""@
        + escape_attr_seq(target) + "\" hx-select=\""@ + escape_attr_seq(select)
        + "\" hx-swap=\"outerHTML\" hx-push-url=\"true\" @click=\"closeLeft()\""@ + (if active {
        " class=\""@ + escape_attr_seq("menu-active"@) + "\""@
    } else {
        seq![]
    }) + ">"@
}

/// Opening anchor of a sidebar item: the item URL (with the dashboard origin
/// merged when the request came from there) swapped into `target`.
pub fn sidebar_menu_item_anchor(
    opts: &SidebarMenuItem,
    target: &str,
    select: &str,
    from_dashboard: bool,
) -> (r: String)
    ensures
        r@ == menu_item_anchor_spec(with_nav_origin_spec(opts.url@, from_dashboard), target@, select@, opts.active),
{
    let url = with_nav_origin(opts.url, from_dashboard);
    let mut out = String::new();
    push_str(&mut out, "<a href=\"");
    push_escaped_attr(&mut out, url.as_str());
    push_str(&mut out, "\" hx-get=\"");
    push_escaped_attr(&mut out, url.as_str());
    push_str(&mut out, "\" hx-target=\"");
    push_escaped_attr(&mut out, target);
    push_str(&mut out, "\" hx-select=\"");
    push_escaped_attr(&mut out, select);
    push_str(&mut out, "\" hx-swap=\"outerHTML\" hx-push-url=\"true\" @click=\"closeLeft()\"");
    let ghost mid = out@;
    if opts.active {
        push_str(&mut out, " class=\"");
        push_escaped_attr(&mut out, "menu-active");
        push_str(&mut out, "\"");
    }
    push_str(&mut out, ">");
    assert(Seq::<char>::empty() + "<a href=\""@ == "<a href=\""@);
    out
}

/// Strip the query string and trailing slashes (except for the root) for sidebar matching.
pub open spec fn normalize_nav_path_spec(path_and_query: Seq<char>) -> Seq<char> {
    let path = split_once(path_and_query, '?').0;
    if path.len() > 1 && ends_with(path, seq!['/']) {
        trim_end_char(path, '/')
    } else {
        path
    }
}

/// Strip the query string and trailing slashes (except for the root) for sidebar matching.
pub fn normalize_nav_path(path_and_query: &str) -> (r: String)
    ensures
        r@ == normalize_nav_path_spec(path_and_query@),
{
    let v = chars_of(path_and_query);
    let (path, _) = split_once_exec(&v, '?');
    if path.len() > 1 && path[path.len() - 1] == '/' {
        assert(path@.subrange(path@.len() - 1, path@.len() as int) == seq!['/']);
        let t = trim_end_char_exec(&path, '/');
        string_of(&t)
    } else {
        proof {
            if path@.len() > 1 && ends_with(path@, seq!['/']) {
                assert(path@[path@.len() - 1] == path@.subrange(path@.len() - 1, path@.len() as int)[0]);
            }
        }
        string_of(&path)
    }
}

/// `path` is `prefix` (normalised) or lies under it.
pub open spec fn path_matches_prefix_spec(path: Seq<char>, prefix: Seq<char>) -> bool {
    let p = normalize_nav_path_spec(prefix);
    path == p || starts_with(path, p.push('/'))
}

/// Whether the (normalised) `path` is `prefix` or lies under it.
pub fn path_matches_prefix(path: &Vec<char>, prefix: &str) -> (r: bool)
    ensures
        r == path_matches_prefix_spec(path@, prefix@),
{
    let p = normalize_nav_path(prefix);
    let mut pv = chars_of(p.as_str());
    if chars_eq(path, &pv) {
        return true;
    }
    pv.push('/');
    assert(path@.subrange(0, path@.len() as int) == path@);
    starts_with_at(path, 0, &pv)
}

/// Candidate `(prefix, key)` pairs of the links, in order: each link's match
/// prefixes, or its URL when it has none.
pub open spec fn nav_candidates(links: Seq<(Seq<char>, Seq<char>, Seq<Seq<char>>)>) -> Seq<(Seq<char>, Seq<char>)>
    decreases links.len(),
{
    if links.len() == 0 {
        seq![]
    } else {
        let l = links.last();
        let own = if l.2.len() == 0 {
            seq![(l.1, l.0)]
        } else {
            l.2.map_values(|p: Seq<char>| (p, l.0))
        };
        nav_candidates(links.drop_last()) + own
    }
}

/// One step of the longest-prefix search: a matching candidate replaces the best
/// so far only when its normalised prefix is strictly longer.
pub open spec fn consider_spec(path: Seq<char>, best: Option<(nat, Seq<char>)>, cand: (Seq<char>, Seq<char>)) -> Option<
    (nat, Seq<char>),
> {
    if path_matches_prefix_spec(path, cand.0) {
        let len = normalize_nav_path_spec(cand.0).len();
        match best {
            Some(b) => if len > b.0 {
                Some((len, cand.1))
            } else {
                best
            },
            None => Some((len, cand.1)),
        }
    } else {
        best
    }
}

/// The best `(length, key)` after considering `cands` in order.
pub open spec fn best_match(path: Seq<char>, cands: Seq<(Seq<char>, Seq<char>)>) -> Option<(nat, Seq<char>)>
    decreases cands.len(),
{
    if cands.len() == 0 {
        None
    } else {
        consider_spec(path, best_match(path, cands.drop_last()), cands.last())
    }
}

/// What activation reads of the links: key, URL and match prefixes (a link's
/// title and icon play no part in which link is active).
pub open spec fn links_view(links: Seq<SidebarNavLink>) -> Seq<(Seq<char>, Seq<char>, Seq<Seq<char>>)> {
    links.map_values(|l: SidebarNavLink| (l.key@, l.url@, l.match_prefixes@.map_values(|p: &str| p@)))
}

/// The active key for `current_path`: the link whose matching prefix is longest
/// (the first such link on ties).
pub open spec fn active_nav_key_spec(links: Seq<SidebarNavLink>, current_path: Seq<char>) -> Option<Seq<char>> {
    match best_match(normalize_nav_path_spec(current_path), nav_candidates(links_view(links))) {
        Some(b) => Some(b.1),
        None => None,
    }
}

/// Longest matching prefix wins; returns the active nav key.
pub fn active_nav_key<'a>(links: &[SidebarNavLink<'a>], current_path: &str) -> (r: Option<&'a str>)
    ensures
        match r {
            Some(k) => active_nav_key_spec(links@, current_path@) == Some(k@),
            None => active_nav_key_spec(links@, current_path@) is None,
        },
{
    let path_s = normalize_nav_path(current_path);
    let path = chars_of(path_s.as_str());
    let ghost lv = links_view(links@);
    let mut best_len: usize = 0;
    let mut best_key: Option<&'a str> = None;
    let mut i: usize = 0;
    while i < links.len()
        invariant
            i <= links.len(),
            lv == links_view(links@),
            path@ == normalize_nav_path_spec(current_path@),
            match best_match(path@, nav_candidates(lv.take(i as int))) {
                Some(b) => best_key is Some && best_key->0@ == b.1 && best_len == b.0,
                None => best_key is None,
            },
        decreases links.len() - i,
    {
        let link = &links[i];
        let ghost before = nav_candidates(lv.take(i as int));
        let ghost l = lv[i as int];
        assert(lv.take(i + 1).drop_last() == lv.take(i as int));
        assert(lv.take(i + 1).last() == l);
        assert(l == (link.key@, link.url@, link.match_prefixes@.map_values(|p: &str| p@)));
        let ghost own = if l.2.len() == 0 {
            seq![(l.1, l.0)]
        } else {
            l.2.map_values(|p: Seq<char>| (p, l.0))
        };
        assert(nav_candidates(lv.take(i + 1)) == before + own);
        if link.match_prefixes.len() == 0 {
            let ghost b0 = best_match(path@, before);
            if path_matches_prefix(&path, link.url) {
                let n = normalize_nav_path(link.url);
                let len = chars_of(n.as_str()).len();
                if best_key.is_none() || len > best_len {
                    best_len = len;
                    best_key = Some(link.key);
                }
            }
            proof {
                assert((before + own).drop_last() == before);
                assert((before + own).last() == (link.url@, link.key@));
            }
        } else {
            let prefixes = link.match_prefixes;
            let mut j: usize = 0;
            while j < prefixes.len()
                invariant
                    j <= prefixes.len(),
                    prefixes@ == link.match_prefixes@,
                    l.2 == prefixes@.map_values(|p: &str| p@),
                    l.0 == link.key@,
                    path@ == normalize_nav_path_spec(current_path@),
                    own == l.2.map_values(|p: Seq<char>| (p, l.0)),
                    match best_match(path@, before + own.take(j as int)) {
                        Some(b) => best_key is Some && best_key->0@ == b.1 && best_len == b.0,
                        None => best_key is None,
                    },
                decreases prefixes.len() - j,
            {
                let prefix = prefixes[j];
                proof {
                    assert((before + own.take(j + 1)).drop_last() == before + own.take(j as int));
                    assert((before + own.take(j + 1)).last() == (prefix@, link.key@));
                }
                if path_matches_prefix(&path, prefix) {
                    let n = normalize_nav_path(prefix);
                    let len = chars_of(n.as_str()).len();
                    if best_key.is_none() || len > best_len {
                        best_len = len;
                        best_key = Some(link.key);
                    }
                }
                j = j + 1;
            }
            assert(own.take(own.len() as int) == own);
        }
        i = i + 1;
    }
    assert(lv.take(links.len() as int) == lv);
    best_key
}


/// A whole sidebar item: `<li>`, the anchor, the icon and the escaped title.
pub open spec fn menu_item_spec(
    url: Seq<char>,
    target: Seq<char>,
    select: Seq<char>,
    active: bool,
    icon: Option<&str>,
    title: Seq<char>,
) -> Seq<char> {
    "<li>"@ + menu_item_anchor_spec(url, target, select, active) + icon_opt(icon) + escape_html(title) + "</a></li>"@
}

/// Sidebar item swapping `target` with `select` from the response.
fn sidebar_menu_item_target(opts: &SidebarMenuItem, target: &str, select: &str, from_dashboard: bool) -> (r: String)
    ensures
        r@ == menu_item_spec(
            with_nav_origin_spec(opts.url@, from_dashboard),
            target@,
            select@,
            opts.active,
            opts.icon_name,
            opts.title@,
        ),
{
    let mut out = to_owned("<li>");
    let a = sidebar_menu_item_anchor(opts, target, select, from_dashboard);
    push_str(&mut out, a.as_str());
    push_icon_label(&mut out, opts.icon_name, opts.title);
    push_str(&mut out, "</a></li>");
    out
}

/// Sidebar item that replaces the main content region.
pub fn sidebar_menu_item(opts: SidebarMenuItem, from_dashboard: bool) -> (r: String)
    ensures
        r@ == menu_item_spec(
            with_nav_origin_spec(opts.url@, from_dashboard),
            MainContentKey::SELECTOR@,
            MainContentKey::SELECTOR@,
            opts.active,
            opts.icon_name,
            opts.title@,
        ),
{
    sidebar_menu_item_target(&opts, MainContentKey::SELECTOR, MainContentKey::SELECTOR, from_dashboard)
}

/// Sidebar item that replaces the whole app layout (detail sidebar, delete page, etc.).
pub fn sidebar_menu_item_pane(opts: SidebarMenuItem, from_dashboard: bool) -> (r: String)
    ensures
        r@ == menu_item_spec(
            with_nav_origin_spec(opts.url@, from_dashboard),
            AppLayoutKey::SELECTOR@,
            AppLayoutKey::SELECTOR@,
            opts.active,
            opts.icon_name,
            opts.title@,
        ),
{
    sidebar_menu_item_target(&opts, AppLayoutKey::SELECTOR, AppLayoutKey::SELECTOR, from_dashboard)
}

/// Script run before a modal form request: it tags the request with the id of
/// the data table the opener sits in, so the table can be refreshed.
pub const MODAL_REFRESH_JS: &'static str = "var t=this.closest('.data-table-container');var id=t?t.id:'';if(typeof ctx!=='undefined'&&ctx.request){var u=new URL(ctx.request.action,location.href);if(id){u.searchParams.set('refresh',id)}else{u.searchParams.delete('refresh')}ctx.request.action=u.pathname+u.search+u.hash;if(ctx.request.body&&ctx.request.body.set){ctx.request.body.set('refresh',id)}}else{var p=event.detail.parameters;if(p&&p.set){p.set('refresh',id)}else if(p){p.refresh=id}}";

/// ` class="…"` for non-empty `classes`, else nothing.
pub open spec fn class_attr_spec(classes: Seq<char>) -> Seq<char> {
    if classes.len() == 0 {
        seq![]
    } else {
        " class=\""@ + escape_attr_seq(classes) + "\""@
    }
}

/// The opening anchor of a modal-form menu item.
pub open spec fn modal_form_anchor_spec(href: Seq<char>, classes: Seq<char>) -> Seq<char> {
    "<a href=\""@ + escape_attr_seq(href) + "\" hx-get=\""@ + escape_attr_seq(href) + "\" hx-target=\""@
        + escape_attr_seq(HTMX_TARGET_BODY_MODAL@) + "\" hx-swap=\""@ + escape_attr_seq(HTMX_SWAP_BODY_MODAL@)
        + "\" hx-push-url=\"false\" hx-on:htmx:config-request=\""@ + escape_attr_seq(MODAL_REFRESH_JS@)
        + "\" hx-on:htmx:config:request=\""@ + escape_attr_seq(MODAL_REFRESH_JS@) + "\" @click=\"closeLeft()\""@
        + class_attr_spec(classes) + ">"@
}

/// A modal-form opener rendered as a menu item.
pub open spec fn modal_form_item_spec(href: Seq<char>, classes: Seq<char>, icon: Option<&str>, label: Seq<char>) -> Seq<
    char,
> {
    "<li>"@ + modal_form_anchor_spec(href, classes) + icon_opt(icon) + escape_html(label) + "</a></li>"@
}

fn modal_form_anchor(href: &str, classes: &str) -> (r: String)
    ensures
        r@ == modal_form_anchor_spec(href@, classes@),
{
    let mut out = to_owned("<a href=\"");
    push_escaped_attr(&mut out, href);
    push_str(&mut out, "\" hx-get=\"");
    push_escaped_attr(&mut out, href);
    push_str(&mut out, "\" hx-target=\"");
    push_escaped_attr(&mut out, HTMX_TARGET_BODY_MODAL);
    push_str(&mut out, "\" hx-swap=\"");
    push_escaped_attr(&mut out, HTMX_SWAP_BODY_MODAL);
    push_str(&mut out, "\" hx-push-url=\"false\" hx-on:htmx:config-request=\"");
    push_escaped_attr(&mut out, MODAL_REFRESH_JS);
    push_str(&mut out, "\" hx-on:htmx:config:request=\"");
    push_escaped_attr(&mut out, MODAL_REFRESH_JS);
    push_str(&mut out, "\" @click=\"closeLeft()\"");
    if !classes.is_empty() {
        push_str(&mut out, " class=\"");
        push_escaped_attr(&mut out, classes);
        push_str(&mut out, "\"");
    } else {
        assert(out@ + Seq::<char>::empty() == out@);
    }
    push_str(&mut out, ">");
    out
}

/// Modal opener styled as a normal sidebar menu item, not a nested button.
pub fn sidebar_menu_modal_form_item(opts: SidebarMenuModalForm) -> (r: String)
    ensures
        r@ == modal_form_item_spec(
            with_name_param_spec(opts.href@, opts.name@),
            opts.classes@,
            opts.icon_name,
            opts.label@,
        ),
{
    let href = sidebar_menu_modal_form_href(&opts);
    let mut out = to_owned("<li>");
    let a = modal_form_anchor(href.as_str(), opts.classes);
    push_str(&mut out, a.as_str());
    push_icon_label(&mut out, opts.icon_name, opts.label);
    push_str(&mut out, "</a></li>");
    out
}

/// Sidebar item that opens a confirmation modal (pre-built GET href; the POST
/// path and modal id are carried by the modal itself).
pub fn sidebar_menu_modal_form_urls(href: &str, form_post_url: &str, label: &str, modal_uid: &str) -> (r: String)
    ensures
        r@ == modal_form_item_spec(href@, "text-error"@, None, label@),
{
    let r = sidebar_menu_modal_form_item(
        SidebarMenuModalForm { label, href, name: "", icon_name: None, classes: "text-error" },
    );
    proof {
        reveal_strlit("");
    }
    r
}

/// Sidebar item that opens a confirmation modal for typed GET and POST routes.
pub fn sidebar_menu_modal_form_route<G: crate::route::RouteUrl, P: crate::route::RouteUrl>(
    get_route: G,
    post_route: P,
    label: &str,
    modal_uid: &str,
) -> (r: String)
    ensures
        r@ == modal_form_item_spec(trailing_slash_spec(get_route.path_spec()), "text-error"@, None, label@),
{
    let href = get_route.url();
    let post_url = post_route.path();
    sidebar_menu_modal_form_urls(href.as_str(), post_url.as_str(), label, modal_uid)
}

/// A sidebar menu: optional title entry, then the rendered children.
pub struct SidebarMenu<'a> {
    pub title: &'a str,
    pub children: String,
}

/// `<ul class="menu …">` with an optional title `<li>` and the children.
pub open spec fn sidebar_menu_spec(title: Seq<char>, children: Seq<char>) -> Seq<char> {
    "<ul class=\"menu w-full wrap-anywhere\">"@ + (if title.len() == 0 {
        seq![]
    } else {
        "<li class=\"menu-title font-semibold opacity-70\">"@ + escape_html(title) + "</li>"@
    }) + children + "</ul>"@
}

/// Render a sidebar menu.
pub fn sidebar_menu(opts: SidebarMenu) -> (r: String)
    ensures
        r@ == sidebar_menu_spec(opts.title@, opts.children@),
{
    let mut out = to_owned("<ul class=\"menu w-full wrap-anywhere\">");
    if !opts.title.is_empty() {
        push_str(&mut out, "<li class=\"menu-title font-semibold opacity-70\">");
        push_escaped_html(&mut out, opts.title);
        push_str(&mut out, "</li>");
    } else {
        assert(out@ + Seq::<char>::empty() == out@);
    }
    push_str(&mut out, opts.children.as_str());
    push_str(&mut out, "</ul>");
    out
}

/// Pane items for `links`, each marked active when its key is `active`.
pub open spec fn nav_items_spec(links: Seq<SidebarNavLink>, active: Option<Seq<char>>, from_dashboard: bool) -> Seq<
    char,
>
    decreases links.len(),
{
    if links.len() == 0 {
        seq![]
    } else {
        let l = links.last();
        nav_items_spec(links.drop_last(), active, from_dashboard) + menu_item_spec(
            with_nav_origin_spec(l.url@, from_dashboard),
            AppLayoutKey::SELECTOR@,
            AppLayoutKey::SELECTOR@,
            active == Some(l.key@),
            l.icon_name,
            l.title@,
        )
    }
}

/// Pane-swapping menu items with `menu-active` on the link that
/// [`active_nav_key`] picks for `current_path`.
pub fn sidebar_nav_items_pane(links: &[SidebarNavLink], current_path: &str, from_dashboard: bool) -> (r: String)
    ensures
        r@ == nav_items_spec(links@, active_nav_key_spec(links@, current_path@), from_dashboard),
{
    let active = active_nav_key(links, current_path);
    let ghost act = active_nav_key_spec(links@, current_path@);
    let mut out = String::new();
    let mut i: usize = 0;
    while i < links.len()
        invariant
            i <= links.len(),
            match active {
                Some(k) => act == Some(k@),
                None => act is None,
            },
            out@ == nav_items_spec(links@.take(i as int), act, from_dashboard),
        decreases links.len() - i,
    {
        let link = &links[i];
        let is_active = match active {
            Some(k) => str_eq(k, link.key),
            None => false,
        };
        let item = sidebar_menu_item_pane(
            SidebarMenuItem { title: link.title, url: link.url, icon_name: link.icon_name, active: is_active },
            from_dashboard,
        );
        push_str(&mut out, item.as_str());
        proof {
            assert(links@.take(i + 1).drop_last() == links@.take(i as int));
            assert(links@.take(i + 1).last() == *link);
            assert(is_active == (act == Some(link.key@)));
        }
        i = i + 1;
    }
    proof {
        assert(links@.take(links.len() as int) == links@);
        reveal_strlit("");
    }
    out
}

} // verus!
