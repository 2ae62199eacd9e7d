//! Data tables: paginated collections, pagination windows, sort clauses and
//! the URLs of sort and page links.

use vstd::prelude::*;

use crate::attrs::HtmlAttrs;
use crate::route::query_string;
use crate::text::{
    ascii_upper, ascii_upper_seq, chars_eq_ignore_ascii_case, chars_of, decimal, eq_ignore_ascii_case,
    escape_attr_seq, first_word, is_whitespace, last_word, push_char, push_escaped_attr, push_str,
    split_all, split_all_exec, split_once, split_once_exec, string_of, sub_vec, to_ascii_upper, trim,
    trim_str, vec_eq_lit, ws_first, ws_first_exec, ws_last_exec,
};

verus! {

/// Default number of rows per paginated table page.
pub const DEFAULT_PAGE_SIZE: u32 = 12;

/// Paginated collection payload.
pub struct ObjectList<T> {
    pub items: Vec<T>,
    pub number: u32,
    pub num_pages: u32,
    pub total: u64,
}

/// `u32` addition clamped at `u32::MAX`.
pub open spec fn sat_add_u32(a: int, b: int) -> int {
    if a + b > u32::MAX {
        u32::MAX as int
    } else {
        a + b
    }
}

/// Number of pages for `total` rows (the count truncated to 32 bits, as the
/// page arithmetic is done in `u32`), at least one.
pub open spec fn num_pages_spec(total: u64, page_size: u32) -> int {
    let ps = if page_size < 1 { 1int } else { page_size as int };
    let t = (total as int) % 0x1_0000_0000;
    let n = sat_add_u32(t, ps - 1) / ps;
    if n < 1 {
        1
    } else {
        n
    }
}

impl<T> ObjectList<T> {
    /// Wrap one page of `items`: the page number and size are raised to at least one.
    pub fn from_page(items: Vec<T>, page: u32, page_size: u32, total: u64) -> (r: Self)
        ensures
            r.items == items,
            r.number == if page < 1 { 1 } else { page },
            r.num_pages == num_pages_spec(total, page_size),
            r.total == total,
    {
        let page = if page < 1 { 1 } else { page };
        let page_size = if page_size < 1 { 1 } else { page_size };
        let t: u32 = (total % 0x1_0000_0000) as u32;
        let n = t.saturating_add(page_size - 1) / page_size;
        let num_pages = if n < 1 { 1 } else { n };
        ObjectList { items, number: page, num_pages, total }
    }
}

/// Column header with optional HTMX sort link.
pub struct TableColumnHeader<'a> {
    /// Stable id for client column visibility; prefer sort-key tokens.
    pub key: &'a str,
    pub label: &'a str,
    pub sort_url: Option<&'a str>,
    pub push_url: bool,
}

/// One pagination control (link, ellipsis, or active page).
pub struct PaginationPage<'a> {
    pub ellipsis: bool,
    pub url: &'a str,
    pub push_url: bool,
    pub active: bool,
    pub label: &'a str,
}

/// Pagination controls targeting a swap region.
pub struct TablePagination<'a> {
    pub pages: &'a [PaginationPage<'a>],
    /// HTMX target selector for page links (from a swap key).
    pub hx_target: &'a str,
}

/// Create/new-record modal opener for table toolbars.
pub struct TableButtonCreate<'a> {
    pub href: &'a str,
    pub name: &'a str,
    pub form_post_url: &'a str,
    pub modal_uid: &'a str,
    pub label: &'a str,
    pub icon_name: Option<&'a str>,
    pub classes: &'a str,
}

impl Default for TableButtonCreate<'_> {
    fn default() -> (r: Self)
        ensures
            r.href@ == "#"@,
            r.name@ == ""@,
            r.form_post_url@ == ""@,
            r.modal_uid@ == ""@,
            r.label@ == ""@,
            r.icon_name == Some("plus"),
            r.classes@ == "btn-square btn-outline btn-sm"@,
    {
        TableButtonCreate {
            href: "#",
            name: "",
            form_post_url: "",
            modal_uid: "",
            label: "",
            icon_name: Some("plus"),
            classes: "btn-square btn-outline btn-sm",
        }
    }
}

/// The visibility attributes of a column cell (empty for an unnamed column).
pub open spec fn col_visibility_spec(key: Seq<char>) -> Seq<char> {
    if key.len() == 0 {
        seq![]
    } else {
        " data-col=\""@ + escape_attr_seq(key) + "\" :class=\"{ 'hidden': !isVisible('"@ + escape_attr_seq(key)
            + "') }\""@
    }
}

/// ` data-col="…" :class="…"` for a column key (client column visibility).
pub fn col_visibility_attrs(key: &str) -> (r: String)
    ensures
        r@ == col_visibility_spec(key@),
{
    let mut out = String::new();
    if key.is_empty() {
        return out;
    }
    push_str(&mut out, " data-col=\"");
    push_escaped_attr(&mut out, key);
    push_str(&mut out, "\" :class=\"{ 'hidden': !isVisible('");
    push_escaped_attr(&mut out, key);
    push_str(&mut out, "') }\"");
    assert(Seq::<char>::empty() + " data-col=\""@ == " data-col=\""@);
    out
}

/// Grid-card classes of a row: the base classes, with a hover background unless
/// the row sets its own `:class`.
pub fn grid_row_attrs(row_attrs: &HtmlAttrs) -> (r: HtmlAttrs)
    ensures
        r@ == crate::attrs::insert_sorted(
            row_attrs@,
            "class"@,
            if crate::attrs::lookup(row_attrs@, ":class"@) is Some {
                grid_base_class()
            } else {
                grid_base_class() + " hover:bg-base-200"@
            },
        ),
{
    let base = "border border-base-300 rounded-box flex flex-col bg-base-100 p-2 cursor-pointer transition-colors";
    let attrs = clone_attrs(row_attrs);
    if row_attrs.contains_key(":class") {
        attrs.set("class", base)
    } else {
        let mut c = String::new();
        push_str(&mut c, base);
        push_str(&mut c, " hover:bg-base-200");
        assert(Seq::<char>::empty() + grid_base_class() == grid_base_class());
        attrs.set("class", c.as_str())
    }
}

/// Base classes of a grid card.
pub open spec fn grid_base_class() -> Seq<char> {
    "border border-base-300 rounded-box flex flex-col bg-base-100 p-2 cursor-pointer transition-colors"@
}

/// A copy of an attribute map.
pub fn clone_attrs(a: &HtmlAttrs) -> (r: HtmlAttrs)
    ensures
        r@ == a@,
{
    a.duplicate()
}

/// Strip sort indicators (` ▲` / ` ▼`) and white space from the end of a header label.
pub open spec fn header_label_plain_spec(label: Seq<char>) -> Seq<char>
    decreases label.len(),
{
    if label.len() > 0 && (label.last() == '▲' || label.last() == '▼' || is_whitespace(label.last())) {
        header_label_plain_spec(label.drop_last())
    } else {
        label
    }
}

/// Strip sort indicators (` ▲` / ` ▼`) from a header label for the column picker.
pub fn header_label_plain(label: &str) -> (r: String)
    ensures
        r@ == header_label_plain_spec(label@),
{
    let v = chars_of(label);
    let mut hi = v.len();
    assert(v@.subrange(0, v@.len() as int) == v@);
    while hi > 0 && (v[hi - 1] == '▲' || v[hi - 1] == '▼' || crate::text::char_is_whitespace(v[hi - 1]))
        invariant
            hi <= v.len(),
            header_label_plain_spec(v@) == header_label_plain_spec(v@.subrange(0, hi as int)),
        decreases hi,
    {
        assert(v@.subrange(0, hi as int).drop_last() == v@.subrange(0, hi - 1));
        hi = hi - 1;
    }
    string_of_prefix(&v, hi)
}

/// `v[..hi]` as a `String`.
fn string_of_prefix(v: &Vec<char>, hi: usize) -> (r: String)
    requires
        hi <= v.len(),
    ensures
        r@ == v@.subrange(0, hi as int),
{
    crate::text::string_of_range(v, 0, hi)
}

// ---------------------------------------------------------------------------
// Sort clauses
// ---------------------------------------------------------------------------

/// Next sort clause when a column header is clicked: ASC, then DESC, then cleared;
/// a different column starts at ASC.
pub open spec fn next_sort_clause_spec(current: Seq<char>, column_key: Seq<char>) -> Option<Seq<char>> {
    let cur = trim(current);
    if cur.len() == 0 {
        Some(column_key + " ASC"@)
    } else if eq_ignore_ascii_case(first_word(cur), column_key) {
        if ascii_upper_seq(last_word(cur)) == "DESC"@ {
            None
        } else {
            Some(column_key + " DESC"@)
        }
    } else {
        Some(column_key + " ASC"@)
    }
}

/// Cycle sort clause for a column: ASC → DESC → cleared. Different column → ASC.
pub fn next_sort_clause(current: &str, column_key: &str) -> (r: Option<String>)
    ensures
        match r {
            Some(s) => next_sort_clause_spec(current@, column_key@) == Some(s@),
            None => next_sort_clause_spec(current@, column_key@) is None,
        },
{
    let cur = trim_str(current);
    let mut asc = String::new();
    push_str(&mut asc, column_key);
    push_str(&mut asc, " ASC");
    assert(Seq::<char>::empty() + column_key@ == column_key@);
    if cur.len() == 0 {
        return Some(asc);
    }
    let first = first_word_exec(&cur);
    let kv = chars_of(column_key);
    if chars_eq_ignore_ascii_case(&first, &kv) {
        let last = last_word_exec(&cur);
        let up = upper_vec(&last);
        if vec_eq_lit(&up, "DESC") {
            None
        } else {
            let mut desc = String::new();
            push_str(&mut desc, column_key);
            push_str(&mut desc, " DESC");
            Some(desc)
        }
    } else {
        Some(asc)
    }
}

/// First white-space separated word.
pub fn first_word_exec(s: &Vec<char>) -> (r: Vec<char>)
    ensures
        r@ == first_word(s@),
{
    proof {
        crate::text::lemma_ws_first(s@);
    }
    match ws_first_exec(s) {
        Some(i) => sub_vec(s, 0, i),
        None => {
            assert(s@.subrange(0, s@.len() as int) == s@);
            sub_vec(s, 0, s.len())
        },
    }
}

/// Last white-space separated word.
pub fn last_word_exec(s: &Vec<char>) -> (r: Vec<char>)
    ensures
        r@ == last_word(s@),
{
    proof {
        crate::text::lemma_ws_last(s@);
    }
    match ws_last_exec(s) {
        Some(i) => {
            proof {
                crate::text::lemma_ws_last(s@);
            }
            assert(i < s.len());
            sub_vec(s, i + 1, s.len())
        },
        None => {
            assert(s@.subrange(0, s@.len() as int) == s@);
            sub_vec(s, 0, s.len())
        },
    }
}

/// ASCII upper-casing of every character.
pub fn upper_vec(s: &Vec<char>) -> (r: Vec<char>)
    ensures
        r@ == ascii_upper_seq(s@),
{
    let mut out: Vec<char> = Vec::new();
    let mut i: usize = 0;
    while i < s.len()
        invariant
            i <= s.len(),
            out@ == s@.take(i as int).map_values(|c: char| ascii_upper(c)),
        decreases s.len() - i,
    {
        out.push(to_ascii_upper(s[i]));
        assert(s@.take(i + 1).map_values(|c: char| ascii_upper(c)) == s@.take(i as int).map_values(
            |c: char| ascii_upper(c),
        ).push(ascii_upper(s@[i as int])));
        i = i + 1;
    }
    assert(s@.take(s@.len() as int) == s@);
    out
}

/// The header suffix showing the current sort direction of `column_key`.
pub open spec fn sort_indicator_spec(current_sort: Seq<char>, column_key: Seq<char>) -> Seq<char> {
    let cur = trim(current_sort);
    if cur.len() == 0 || !eq_ignore_ascii_case(first_word(cur), column_key) {
        ""@
    } else if ws_first(cur) >= 0 && eq_ignore_ascii_case(last_word(cur), "DESC"@) {
        " ▼"@
    } else {
        " ▲"@
    }
}

/// ` ▲` / ` ▼` when the current sort is on `column_key`, else empty.
pub fn sort_indicator(current_sort: &str, column_key: &str) -> (r: &'static str)
    ensures
        r@ == sort_indicator_spec(current_sort@, column_key@),
{
    let cur = trim_str(current_sort);
    if cur.len() == 0 {
        return "";
    }
    let first = first_word_exec(&cur);
    let kv = chars_of(column_key);
    if !chars_eq_ignore_ascii_case(&first, &kv) {
        return "";
    }
    let has_two = match ws_first_exec(&cur) {
        Some(_) => true,
        None => false,
    };
    let last = last_word_exec(&cur);
    let desc = chars_of("DESC");
    if has_two && chars_eq_ignore_ascii_case(&last, &desc) {
        " ▼"
    } else {
        " ▲"
    }
}

// ---------------------------------------------------------------------------
// Query strings of table links
// ---------------------------------------------------------------------------

/// `key=value` pieces of a query (pieces without `=` dropped), minus the keys `a` and `b`.
pub open spec fn kept_pairs(pieces: Seq<Seq<char>>, a: Seq<char>, b: Seq<char>) -> Seq<(Seq<char>, Seq<char>)>
    decreases pieces.len(),
{
    if pieces.len() == 0 {
        seq![]
    } else {
        let rest = kept_pairs(pieces.drop_last(), a, b);
        let (k, v) = split_once(pieces.last(), '=');
        match v {
            Some(val) => if k == a || k == b {
                rest
            } else {
                rest.push((k, val))
            },
            None => rest,
        }
    }
}

/// Path and the pairs of its query that survive dropping keys `a` and `b`.
pub open spec fn path_and_kept(path_and_query: Seq<char>, a: Seq<char>, b: Seq<char>) -> (Seq<char>, Seq<(Seq<char>, Seq<char>)>) {
    let (path, q) = split_once(path_and_query, '?');
    let query = match q {
        Some(x) => x,
        None => seq![],
    };
    let pairs = if query.len() == 0 {
        seq![]
    } else {
        kept_pairs(split_all(query, '&'), a, b)
    };
    (path, pairs)
}

/// Link to page `page`, keeping the other query parameters.
pub open spec fn page_url_spec(path_and_query: Seq<char>, page: nat) -> Seq<char> {
    let (path, pairs) = path_and_kept(path_and_query, "page"@, "page"@);
    path + seq!['?'] + query_string(pairs.push(("page"@, decimal(page))))
}

/// Path and kept query pairs (as strings) of a table URL.
fn path_and_kept_exec(path_and_query: &str, a: &str, b: &str) -> (r: (Vec<char>, Vec<(String, String)>))
    ensures
        r.0@ == path_and_kept(path_and_query@, a@, b@).0,
        r.1@.map_values(|p: (String, String)| (p.0@, p.1@)) == path_and_kept(path_and_query@, a@, b@).1,
{
    let v = chars_of(path_and_query);
    let (path, q) = split_once_exec(&v, '?');
    let query = match q {
        Some(x) => x,
        None => Vec::new(),
    };
    let mut pairs: Vec<(String, String)> = Vec::new();
    if query.len() == 0 {
        assert(pairs@.map_values(|p: (String, String)| (p.0@, p.1@)) =~= Seq::<(Seq<char>, Seq<char>)>::empty());
        return (path, pairs);
    }
    let pieces = split_all_exec(&query, '&');
    let ghost ps = split_all(query@, '&');
    let mut i: usize = 0;
    while i < pieces.len()
        invariant
            i <= pieces.len(),
            pieces@.map_values(|v: Vec<char>| v@) == ps,
            pairs@.map_values(|p: (String, String)| (p.0@, p.1@)) == kept_pairs(ps.take(i as int), a@, b@),
        decreases pieces.len() - i,
    {
        let (k, val) = split_once_exec(&pieces[i], '=');
        proof {
            assert(ps.take(i + 1).drop_last() == ps.take(i as int));
            assert(ps.take(i + 1).last() == pieces@[i as int]@);
        }
        match val {
            Some(x) => {
                if !(vec_eq_lit(&k, a) || vec_eq_lit(&k, b)) {
                    let ks = string_of(&k);
                    let xs = string_of(&x);
                    let ghost before = pairs@;
                    pairs.push((ks, xs));
                    assert(pairs@.map_values(|p: (String, String)| (p.0@, p.1@)) == before.map_values(
                        |p: (String, String)| (p.0@, p.1@),
                    ).push((k@, x@)));
                }
            },
            None => {},
        }
        i = i + 1;
    }
    assert(ps.take(ps.len() as int) == ps);
    (path, pairs)
}

/// Append `key=value` pairs joined by `&`.
fn push_query_string(out: &mut String, pairs: &Vec<(String, String)>)
    ensures
        final(out)@ == old(out)@ + query_string(pairs@.map_values(|p: (String, String)| (p.0@, p.1@))),
{
    let ghost ps = pairs@.map_values(|p: (String, String)| (p.0@, p.1@));
    let ghost start = out@;
    let mut i: usize = 0;
    while i < pairs.len()
        invariant
            i <= pairs.len(),
            ps == pairs@.map_values(|p: (String, String)| (p.0@, p.1@)),
            out@ == start + query_string(ps.take(i as int)),
        decreases pairs.len() - i,
    {
        let ghost before = out@;
        if i > 0 {
            push_char(out, '&');
        }
        push_str(out, pairs[i].0.as_str());
        push_char(out, '=');
        push_str(out, pairs[i].1.as_str());
        proof {
            let t = ps.take(i + 1);
            assert(t.drop_last() == ps.take(i as int));
            assert(t.last() == ps[i as int]);
            if i == 0 {
                assert(ps.take(0) =~= Seq::<(Seq<char>, Seq<char>)>::empty());
                assert(before == start);
                assert(start + query_string(t) == start + (ps[0].0 + seq!['='] + ps[0].1));
            }
        }
        i = i + 1;
    }
    assert(ps.take(ps.len() as int) == ps);
}

/// Link to page `page` of the current list, keeping its other query parameters.
pub fn page_url(path_and_query: &str, page: u32) -> (r: String)
    ensures
        r@ == page_url_spec(path_and_query@, page as nat),
{
    let (path, mut pairs) = path_and_kept_exec(path_and_query, "page", "page");
    let ghost before = pairs@;
    let n = crate::text::decimal_string(page as u64);
    pairs.push((crate::text::to_owned("page"), n));
    assert(pairs@.map_values(|p: (String, String)| (p.0@, p.1@)) == before.map_values(
        |p: (String, String)| (p.0@, p.1@),
    ).push(("page"@, decimal(page as nat))));
    let mut out = string_of(&path);
    push_char(&mut out, '?');
    push_query_string(&mut out, &pairs);
    out
}

/// Sort link for a column: the other query parameters kept, `page=1`, then the
/// next sort clause (spaces as `+`) unless the sort is cleared.
pub open spec fn column_sort_url_spec(path_and_query: Seq<char>, column_key: Seq<char>, current_sort: Seq<char>) -> Seq<char> {
    let (path, pairs) = path_and_kept(path_and_query, "sort"@, "page"@);
    let with_page = pairs.push(("page"@, "1"@));
    let all = match next_sort_clause_spec(current_sort, column_key) {
        Some(next) => with_page.push(("sort"@, next.map_values(|c: char| if c == ' ' { '+' } else { c }))),
        None => with_page,
    };
    path + seq!['?'] + query_string(all)
}

/// `s` with every space replaced by `+`.
fn spaces_to_plus(s: &str) -> (r: String)
    ensures
        r@ == s@.map_values(|c: char| if c == ' ' { '+' } else { c }),
{
    let v = chars_of(s);
    let mut out = String::new();
    let mut i: usize = 0;
    while i < v.len()
        invariant
            i <= v.len(),
            v@ == s@,
            out@ == v@.take(i as int).map_values(|c: char| if c == ' ' { '+' } else { c }),
        decreases v.len() - i,
    {
        let c = if v[i] == ' ' { '+' } else { v[i] };
        push_char(&mut out, c);
        assert(v@.take(i + 1).map_values(|c: char| if c == ' ' { '+' } else { c }) == v@.take(i as int).map_values(
            |c: char| if c == ' ' { '+' } else { c },
        ).push(c));
        i = i + 1;
    }
    assert(v@.take(v@.len() as int) == v@);
    out
}

/// Build a sort URL preserving the query string, cycling the column, resetting page to 1.
pub fn column_sort_url(path_and_query: &str, column_key: &str, current_sort: &str) -> (r: String)
    ensures
        r@ == column_sort_url_spec(path_and_query@, column_key@, current_sort@),
{
    let (path, mut pairs) = path_and_kept_exec(path_and_query, "sort", "page");
    let ghost p0 = pairs@.map_values(|p: (String, String)| (p.0@, p.1@));
    pairs.push((crate::text::to_owned("page"), crate::text::to_owned("1")));
    let ghost p1 = pairs@.map_values(|p: (String, String)| (p.0@, p.1@));
    assert(p1 == p0.push(("page"@, "1"@)));
    match next_sort_clause(current_sort, column_key) {
        Some(next) => {
            let plus = spaces_to_plus(next.as_str());
            pairs.push((crate::text::to_owned("sort"), plus));
            assert(pairs@.map_values(|p: (String, String)| (p.0@, p.1@)) == p1.push(("sort"@, plus@)));
        },
        None => {},
    }
    let mut out = string_of(&path);
    push_char(&mut out, '?');
    push_query_string(&mut out, &pairs);
    out
}

// ---------------------------------------------------------------------------
// Pagination window
// ---------------------------------------------------------------------------

/// One pagination entry: (ellipsis, url, push_url, active, label).
pub type PageEntry = (bool, Seq<char>, bool, bool, Seq<char>);

/// The link entry for page `p`.
pub open spec fn page_link(path_and_query: Seq<char>, p: nat, current: nat, push_url: bool) -> PageEntry {
    (false, page_url_spec(path_and_query, p), push_url, p == current, decimal(p))
}

/// An ellipsis entry.
pub open spec fn ellipsis(push_url: bool) -> PageEntry {
    (true, seq![], push_url, false, seq![])
}

/// First page of the window around `n` (five pages wide, clamped to `[1, np]`).
pub open spec fn window_start(n: nat, np: nat) -> nat {
    let s0: nat = if n >= 3 { (n - 2) as nat } else { 1 };
    let s: nat = if s0 < 1 { 1 } else { s0 };
    if s + 4 > np {
        let e = np;
        let s2: nat = if e >= 4 { (e - 4) as nat } else { 0 };
        if s2 < 1 { 1 } else { s2 }
    } else {
        s
    }
}

/// Last page of the window around `n`.
pub open spec fn window_end(n: nat, np: nat) -> nat {
    let s0: nat = if n >= 3 { (n - 2) as nat } else { 1 };
    let s: nat = if s0 < 1 { 1 } else { s0 };
    if s + 4 > np {
        np
    } else {
        s + 4
    }
}

/// Pagination entries: first page and ellipsis before the window, the window,
/// ellipsis and last page after it; nothing for a single page.
pub open spec fn pagination_pages_spec(path_and_query: Seq<char>, current: nat, num_pages: nat, push_url: bool) -> Seq<
    PageEntry,
> {
    if num_pages <= 1 {
        seq![]
    } else {
        let n: nat = if current < 1 { 1 } else { current };
        let np = num_pages;
        let start = window_start(n, np);
        let end = window_end(n, np);
        let head = if start > 1 {
            seq![page_link(path_and_query, 1, n, push_url), ellipsis(push_url)]
        } else {
            seq![]
        };
        let window = Seq::new((end + 1 - start) as nat, |i: int| page_link(path_and_query, (start + i) as nat, n, push_url));
        let tail = if end < np {
            seq![ellipsis(push_url), page_link(path_and_query, np, n, push_url)]
        } else {
            seq![]
        };
        head + window + tail
    }
}

/// The entries as plain values.
pub open spec fn entries_view(v: Seq<(bool, String, bool, bool, String)>) -> Seq<PageEntry> {
    v.map_values(|e: (bool, String, bool, bool, String)| (e.0, e.1@, e.2, e.3, e.4@))
}

/// Build pagination page entries for a window around the current page.
///
/// Each entry is `(ellipsis, url, push_url, active, label)`.
pub fn pagination_pages(path_and_query: &str, current: u32, num_pages: u32, push_url: bool) -> (r: Vec<
    (bool, String, bool, bool, String),
>)
    requires
        current <= u32::MAX - 3,
    ensures
        entries_view(r@) == pagination_pages_spec(path_and_query@, current as nat, num_pages as nat, push_url),
{
    let mut out: Vec<(bool, String, bool, bool, String)> = Vec::new();
    if num_pages <= 1 {
        assert(entries_view(out@) =~= Seq::<PageEntry>::empty());
        return out;
    }
    let n: u32 = if current < 1 { 1 } else { current };
    let np: u32 = num_pages;
    let s0: u32 = if n >= 3 { n - 2 } else { 1 };
    let mut start: u32 = if s0 < 1 { 1 } else { s0 };
    let mut end: u32 = start + 5 - 1;
    if end > np {
        end = np;
        let s2: u32 = if end >= 4 { end - 4 } else { 0 };
        start = if s2 < 1 { 1 } else { s2 };
    }
    assert(start as nat == window_start(n as nat, np as nat));
    assert(end as nat == window_end(n as nat, np as nat));
    let ghost head: Seq<PageEntry> = if start > 1 {
        seq![page_link(path_and_query@, 1, n as nat, push_url), ellipsis(push_url)]
    } else {
        seq![]
    };
    if start > 1 {
        let u = page_url(path_and_query, 1);
        out.push((false, u, push_url, n == 1, crate::text::to_owned("1")));
        proof {
            reveal_strlit("1");
            assert(decimal(1) == "1"@);
        }
        out.push((true, String::new(), push_url, false, String::new()));
    }
    assert(entries_view(out@) == head);
    let ghost w = Seq::new(
        (end + 1 - start) as nat,
        |i: int| page_link(path_and_query@, (start + i) as nat, n as nat, push_url),
    );
    let mut p: u64 = start as u64;
    while p <= end as u64
        invariant
            start <= p <= end + 1,
            end <= np,
            start >= 1,
            end as int + 1 >= start as int,
            entries_view(out@) == head + w.take(p - start),
            w == Seq::new(
                (end + 1 - start) as nat,
                |i: int| page_link(path_and_query@, (start + i) as nat, n as nat, push_url),
            ),
        decreases end + 1 - p,
    {
        let u = page_url(path_and_query, p as u32);
        let label = crate::text::decimal_string(p);
        let ghost before = out@;
        out.push((false, u, push_url, p == n as u64, label));
        proof {
            assert(w.take(p + 1 - start) == w.take(p - start).push(w[p - start]));
            assert(entries_view(out@) == entries_view(before).push((false, u@, push_url, p == n, label@)));
        }
        p = p + 1;
    }
    assert(w.take(w.len() as int) == w);
    if end < np {
        out.push((true, String::new(), push_url, false, String::new()));
        let u = page_url(path_and_query, np);
        let label = crate::text::decimal_string(np as u64);
        out.push((false, u, push_url, n == np, label));
    }
    out
}

} // verus!
