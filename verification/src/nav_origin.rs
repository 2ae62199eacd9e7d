//! "Arrived from the apps dashboard" origin for breadcrumbs and navigation links.
//!
//! Tile links on the dashboard carry `from=dashboard`; pages reached that way
//! keep the marker on their in-app links so the breadcrumb trail can show a
//! Dashboard crumb. Whether the current request arrived from the dashboard is
//! request-scoped state: it is passed in as `from_dashboard`.

use vstd::prelude::*;

use crate::route::{trailing_slash, trailing_slash_spec};
use crate::text::{
    chars_of, ends_with, starts_with, find_str, find_sub, push_char, push_range, push_str, split_all,
    split_all_exec, split_once, split_once_exec, string_of, sub_vec, to_owned, trim, trim_end_char,
    trim_end_char_exec, vec_eq_lit,
};

verus! {

/// Apps launchpad path (`url()` adds the trailing slash).
pub const DASHBOARD_URL: &'static str = "/dashboard/";

/// A query piece split into key and value (`key=value`; no `=` gives an empty value).
pub open spec fn pair_kv(piece: Seq<char>) -> (Seq<char>, Seq<char>) {
    match split_once(piece, '=').1 {
        Some(v) => (split_once(piece, '=').0, v),
        None => (piece, seq![]),
    }
}

/// The query piece is the `from=dashboard` pair.
pub open spec fn is_origin_pair(piece: Seq<char>) -> bool {
    pair_kv(piece).0 == "from"@ && pair_kv(piece).1 == "dashboard"@
}

/// Some `&`-separated piece of `q` is the `from=dashboard` pair.
pub open spec fn has_origin_pair(q: Seq<char>) -> bool {
    exists|i: int| 0 <= i < split_all(q, '&').len() && is_origin_pair(#[trigger] split_all(q, '&')[i])
}

/// The query holds a `from=dashboard` pair.
pub open spec fn query_has_from_dashboard_spec(query: Option<Seq<char>>) -> bool {
    match query {
        None => false,
        Some(q) => has_origin_pair(q),
    }
}

/// The path is the dashboard (`/dashboard` with any number of trailing slashes).
pub open spec fn is_dashboard_path_spec(path: Seq<char>) -> bool {
    trim_end_char(path, '/') == "/dashboard"@
}

/// `href` with `from=dashboard` merged into its query, unless it targets the
/// dashboard itself or already carries the pair.
pub open spec fn append_from_dashboard_spec(href: Seq<char>) -> Seq<char> {
    let (path, query) = split_once(href, '?');
    if is_dashboard_path_spec(path) || query_has_from_dashboard_spec(query) {
        href
    } else {
        match query {
            Some(q) => if q.len() > 0 {
                path + seq!['?'] + q + "&from=dashboard"@
            } else {
                path + "?from=dashboard"@
            },
            None => path + "?from=dashboard"@,
        }
    }
}

/// The href of a dashboard tile: trailing-slash path, query kept, origin appended.
pub open spec fn dashboard_app_href_spec(href: Seq<char>) -> Seq<char> {
    let (path, query) = split_once(href, '?');
    let path2 = if ends_with(path, seq!['/']) {
        path
    } else {
        path.push('/')
    };
    let href2 = match query {
        Some(q) => if q.len() > 0 {
            path2 + seq!['?'] + q
        } else {
            path2
        },
        None => path2,
    };
    append_from_dashboard_spec(href2)
}

/// `href` with the origin merged in when the request arrived from the dashboard.
pub open spec fn with_nav_origin_spec(href: Seq<char>, from_dashboard: bool) -> Seq<char> {
    if from_dashboard {
        append_from_dashboard_spec(href)
    } else {
        href
    }
}

/// The path of a URL (scheme and host dropped, fragment and query cut) and its query.
pub open spec fn path_and_query_spec(url: Seq<char>) -> (Seq<char>, Option<Seq<char>>) {
    let u = trim(url);
    let without_fragment = split_once(u, '#').0;
    let (before_query, query) = split_once(without_fragment, '?');
    let i = find_sub(before_query, "://"@);
    let path = if i >= 0 {
        let after = before_query.subrange(i + 3, before_query.len() as int);
        let (host, rest) = split_once(after, '/');
        match rest {
            Some(r) => seq!['/'] + r,
            None => seq!['/'],
        }
    } else {
        before_query
    };
    (path, query)
}

/// The URL points at the dashboard or carries the `from=dashboard` marker.
pub open spec fn url_is_dashboard_origin_spec(url: Option<Seq<char>>) -> bool {
    match url {
        None => false,
        Some(u) => {
            let (path, query) = path_and_query_spec(u);
            is_dashboard_path_spec(path) || query_has_from_dashboard_spec(query)
        },
    }
}

/// Origin of a request from its URI and the `HX-Current-URL` / `Referer` headers.
pub open spec fn arrived_from_dashboard_spec(
    uri_path: Seq<char>,
    uri_query: Option<Seq<char>>,
    hx_current_url: Option<Seq<char>>,
    referer: Option<Seq<char>>,
) -> bool {
    if is_dashboard_path_spec(uri_path) {
        false
    } else {
        query_has_from_dashboard_spec(uri_query) || url_is_dashboard_origin_spec(hx_current_url)
            || url_is_dashboard_origin_spec(referer)
    }
}

/// Split `href` at its first `?` into path and query.
pub fn split_query(href: &Vec<char>) -> (r: (Vec<char>, Option<Vec<char>>))
    ensures
        r.0@ == split_once(href@, '?').0,
        match r.1 {
            Some(q) => split_once(href@, '?').1 == Some(q@),
            None => split_once(href@, '?').1 is None,
        },
{
    split_once_exec(href, '?')
}

/// Whether `path` is the dashboard path.
pub fn is_dashboard_path(path: &Vec<char>) -> (r: bool)
    ensures
        r == is_dashboard_path_spec(path@),
{
    let t = trim_end_char_exec(path, '/');
    vec_eq_lit(&t, "/dashboard")
}

/// Whether the query carries `from=dashboard`.
pub fn query_has_from_dashboard(query: &Option<Vec<char>>) -> (r: bool)
    ensures
        r == query_has_from_dashboard_spec(match query {
            Some(q) => Some(q@),
            None => None,
        }),
{
    match query {
        None => false,
        Some(q) => {
            let pieces = split_all_exec(q, '&');
            let ghost ps = split_all(q@, '&');
            let mut i: usize = 0;
            while i < pieces.len()
                invariant
                    i <= pieces.len(),
                    pieces@.map_values(|v: Vec<char>| v@) == ps,
                    ps == split_all(q@, '&'),
                    match query {
                        Some(qq) => qq@ == q@,
                        None => false,
                    },
                    forall|j: int| 0 <= j < i ==> !is_origin_pair(#[trigger] ps[j]),
                decreases pieces.len() - i,
            {
                let (k, v) = split_once_exec(&pieces[i], '=');
                let value = match v {
                    Some(x) => x,
                    None => Vec::new(),
                };
                assert(ps[i as int] == pieces@[i as int]@);
                if vec_eq_lit(&k, "from") && vec_eq_lit(&value, "dashboard") {
                    assert(is_origin_pair(split_all(q@, '&')[i as int]));
                    assert(i < split_all(q@, '&').len());
                    assert(has_origin_pair(q@));
                    return true;
                }
                proof {
                    if is_origin_pair(ps[i as int]) {
                        assert(pair_kv(ps[i as int]).1 == value@);
                    }
                }
                i = i + 1;
            }
            false
        },
    }
}

/// Merge `from=dashboard` onto `href` unless it is the dashboard or already marked.
pub fn append_from_dashboard(href: &str) -> (r: String)
    ensures
        r@ == append_from_dashboard_spec(href@),
{
    let hv = chars_of(href);
    let (path, query) = split_query(&hv);
    if is_dashboard_path(&path) || query_has_from_dashboard(&query) {
        return to_owned(href);
    }
    let mut out = string_of(&path);
    match query {
        Some(q) => {
            if q.len() > 0 {
                push_char(&mut out, '?');
                push_range(&mut out, &q, 0, q.len());
                push_str(&mut out, "&from=dashboard");
                assert(q@.subrange(0, q@.len() as int) == q@);
            } else {
                push_str(&mut out, "?from=dashboard");
            }
        },
        None => {
            push_str(&mut out, "?from=dashboard");
        },
    }
    out
}

/// Trailing-slash app href with `from=dashboard` (dashboard tile links).
///
/// Forces the origin query even on the dashboard page.
pub fn dashboard_app_href(href: &str) -> (r: String)
    ensures
        r@ == dashboard_app_href_spec(href@),
{
    let hv = chars_of(href);
    let (path, query) = split_query(&hv);
    let mut h = string_of(&path);
    if !(path.len() > 0 && path[path.len() - 1] == '/') {
        proof {
            if ends_with(path@, seq!['/']) {
                assert(path@[path@.len() - 1] == path@.subrange(path@.len() - 1, path@.len() as int)[0]);
            }
        }
        push_char(&mut h, '/');
    } else {
        assert(path@.subrange(path@.len() - 1, path@.len() as int) == seq!['/']);
    }
    match query {
        Some(q) => {
            if q.len() > 0 {
                push_char(&mut h, '?');
                push_range(&mut h, &q, 0, q.len());
                assert(q@.subrange(0, q@.len() as int) == q@);
            }
        },
        None => {},
    }
    proof {
        let sp = split_once(href@, '?');
        let path2 = if ends_with(sp.0, seq!['/']) {
            sp.0
        } else {
            sp.0.push('/')
        };
        let href2 = match sp.1 {
            Some(q) => if q.len() > 0 {
                path2 + seq!['?'] + q
            } else {
                path2
            },
            None => path2,
        };
        assert(h@ == href2);
    }
    append_from_dashboard(h.as_str())
}

/// Whether the current request arrived from the dashboard, given the flag of
/// its request scope (`None` outside any request scope): false outside one.
pub fn from_dashboard(scoped: Option<bool>) -> (r: bool)
    ensures
        r == (scoped == Some(true)),
{
    match scoped {
        Some(v) => v,
        None => false,
    }
}

/// Merge `from=dashboard` onto `href` when this request arrived from the apps grid.
///
/// No-op when the origin is unset, the target is the dashboard itself, or the
/// query already carries the pair.
pub fn with_nav_origin(href: &str, from_dashboard: bool) -> (r: String)
    ensures
        r@ == with_nav_origin_spec(href@, from_dashboard),
{
    if !from_dashboard {
        return to_owned(href);
    }
    append_from_dashboard(href)
}

/// Navigation URL: trailing slash plus the current request's dashboard origin.
pub fn nav_url(path: &str, from_dashboard: bool) -> (r: String)
    ensures
        r@ == with_nav_origin_spec(trailing_slash_spec(path@), from_dashboard),
{
    let p = trailing_slash(path);
    with_nav_origin(p.as_str(), from_dashboard)
}

/// Path (scheme and host dropped) and query of a URL.
pub fn path_and_query(url: &str) -> (r: (Vec<char>, Option<Vec<char>>))
    ensures
        r.0@ == path_and_query_spec(url@).0,
        match r.1 {
            Some(q) => path_and_query_spec(url@).1 == Some(q@),
            None => path_and_query_spec(url@).1 is None,
        },
{
    let u = crate::text::trim_str(url);
    let (without_fragment, _) = split_once_exec(&u, '#');
    let (before_query, query) = split_query(&without_fragment);
    let path = match find_str(&before_query, "://") {
        Some(i) => {
            proof {
                crate::text::lemma_find_sub(before_query@, "://"@);
                reveal_strlit("://");
                assert("://"@.len() == 3);
                assert(i as int == find_sub(before_query@, "://"@));
                assert(starts_with(before_query@.subrange(i as int, before_query@.len() as int), "://"@));
                assert(i + 3 <= before_query@.len());
            }
            let after = sub_vec(&before_query, i + 3, before_query.len());
            let (_, rest) = split_once_exec(&after, '/');
            match rest {
                Some(r) => {
                    let mut p: Vec<char> = Vec::new();
                    p.push('/');
                    let mut j: usize = 0;
                    while j < r.len()
                        invariant
                            j <= r.len(),
                            p@ == seq!['/'] + r@.subrange(0, j as int),
                        decreases r.len() - j,
                    {
                        p.push(r[j]);
                        assert(r@.subrange(0, j + 1) == r@.subrange(0, j as int).push(r@[j as int]));
                        j = j + 1;
                    }
                    assert(r@.subrange(0, r@.len() as int) == r@);
                    p
                },
                None => {
                    let mut p: Vec<char> = Vec::new();
                    p.push('/');
                    p
                },
            }
        },
        None => before_query,
    };
    (path, query)
}

/// Whether a header URL points at the dashboard or carries the origin marker.
pub fn url_is_dashboard_origin(url: Option<&str>) -> (r: bool)
    ensures
        r == url_is_dashboard_origin_spec(match url {
            Some(u) => Some(u@),
            None => None,
        }),
{
    match url {
        None => false,
        Some(u) => {
            let (path, query) = path_and_query(u);
            is_dashboard_path(&path) || query_has_from_dashboard(&query)
        },
    }
}

/// Origin from the request URI (path and query) plus `HX-Current-URL` / `Referer`.
///
/// Always `false` on the dashboard page itself.
pub fn arrived_from_dashboard(
    uri_path: &str,
    uri_query: Option<&str>,
    hx_current_url: Option<&str>,
    referer: Option<&str>,
) -> (r: bool)
    ensures
        r == arrived_from_dashboard_spec(
            uri_path@,
            match uri_query {
                Some(q) => Some(q@),
                None => None,
            },
            match hx_current_url {
                Some(u) => Some(u@),
                None => None,
            },
            match referer {
                Some(u) => Some(u@),
                None => None,
            },
        ),
        is_dashboard_path_spec(uri_path@) ==> !r,
{
    let pv = chars_of(uri_path);
    if is_dashboard_path(&pv) {
        return false;
    }
    let q = match uri_query {
        Some(s) => Some(chars_of(s)),
        None => None,
    };
    if query_has_from_dashboard(&q) {
        return true;
    }
    if url_is_dashboard_origin(hx_current_url) {
        return true;
    }
    url_is_dashboard_origin(referer)
}

} // verus!
