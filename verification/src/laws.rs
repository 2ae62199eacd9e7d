//! Properties of the library that span calls: idempotence of the URL helpers
//! and of app registration, what a read gives back of an attribute write, the
//! safety of every escape, and the round trip of decimal numbers.

use vstd::prelude::*;

use crate::apps::{key_index, register_spec, sort_by_name, visible_filter, PluginType, TileView};
use crate::attrs::{
    insert_sorted, key_lt, lemma_insert_sorted_sorted, lemma_key_lt_irrefl, lookup, merge_entries,
    sorted_keys,
};
use crate::html::{escape_html, escape_html_char};
use crate::length::{
    format_nm_spec, lemma_mm_round_trip, mm_nm, normalize_mm_spec, parse_length_spec, parse_mm_spec,
    shown_value, submitted_mm, LengthError, LengthParse, LengthUnit, MAX_NM,
};
use crate::json::{all_digits, digits_value, is_u64_syntax, parse_u64_spec, unsigned_digits};
use crate::markdown::{escape_text, escape_text_char, render_from, MdEvent, MdTag, MdTagEnd, RenderState};
use crate::nav_origin::{
    append_from_dashboard_spec, has_origin_pair, is_origin_pair, pair_kv, query_has_from_dashboard_spec,
};
use crate::breadcrumbs::{
    breadcrumbs_spec, crumb_li_spec, crumb_spec, crumbs_spec, is_dashboard_crumb, Crumb, DASHBOARD_LABEL,
};
use crate::command::command_index;
use crate::nav_origin::DASHBOARD_URL;
use crate::slots::{lemma_slot_index, slot_index, SlotKind};
use crate::menu::normalize_nav_path_spec;
use crate::route::trailing_slash_spec;
use crate::route::query_string;
use crate::table::{
    column_sort_url_spec, kept_pairs, next_sort_clause_spec, page_link, pagination_pages_spec, sort_indicator_spec,
    window_end, window_start,
};
use crate::paths::{
    param_splat, params_of, placeholder, route_path_spec, segments_of, static_text, value_text, ParamValue, SegmentView,
};
use crate::text::{
    decimal, digit_char, ends_with, find_char, has_char, join, lemma_find_char, lemma_find_char_is, split_all,
    escape_attr_char, escape_attr_seq, lemma_escape_attr_add, lemma_escape_attr_safe, split_once, starts_with,
    trim_end_char,
};

verus! {

// ---------------------------------------------------------------------------
// Trailing slash
// ---------------------------------------------------------------------------

/// Adding a trailing slash twice is adding it once, and the result ends with `/`.
pub proof fn law_trailing_slash_idempotent(path: Seq<char>)
    ensures
        trailing_slash_spec(trailing_slash_spec(path)) == trailing_slash_spec(path),
        ends_with(trailing_slash_spec(path), seq!['/']),
{
    let p = path.push('/');
    assert(p.subrange(p.len() - 1, p.len() as int) =~= seq!['/']);
}

// ---------------------------------------------------------------------------
// App registration
// ---------------------------------------------------------------------------

/// A first occurrence is what `key_index` returns.
proof fn lemma_key_index_is(apps: Seq<TileView>, key: Seq<char>, j: int)
    requires
        -1 <= j <= apps.len(),
        0 <= j < apps.len() ==> apps[j].0 == key,
        forall|m: int| 0 <= m < apps.len() && (j < 0 || j == apps.len() || m < j) ==> (#[trigger] apps[m]).0 != key,
    ensures
        key_index(apps, key) == (if j == apps.len() { -1 } else { j }),
    decreases apps.len(),
{
    if apps.len() > 0 && j != 0 {
        let jj = if j < 0 || j == apps.len() { if j < 0 { -1 } else { apps.len() - 1 } } else { j - 1 };
        assert forall|m: int| 0 <= m < apps.drop_first().len() && (jj < 0 || jj == apps.drop_first().len() || m < jj)
            implies (#[trigger] apps.drop_first()[m]).0 != key by {
            assert(apps.drop_first()[m] == apps[m + 1]);
        }
        lemma_key_index_is(apps.drop_first(), key, jj);
    }
}

/// Registering a tile is idempotent on its key: registering the same tile
/// again changes nothing (the second registration replaces the first).
pub proof fn law_register_idempotent(apps: Seq<TileView>, tile: TileView)
    ensures
        register_spec(register_spec(apps, tile), tile) == register_spec(apps, tile),
{
    crate::apps::lemma_key_index(apps, tile.0);
    let i = key_index(apps, tile.0);
    let once = register_spec(apps, tile);
    if i >= 0 {
        assert forall|m: int| 0 <= m < once.len() && (i < 0 || i == once.len() || m < i) implies (#[trigger] once[m]).0
            != tile.0 by {
            assert(once[m] == apps[m]);
        }
        lemma_key_index_is(once, tile.0, i);
        assert(once.update(i, tile) =~= once);
    } else {
        let n = apps.len() as int;
        assert forall|m: int| 0 <= m < once.len() && (n < 0 || n == once.len() || m < n) implies (#[trigger] once[m]).0
            != tile.0 by {
            assert(once[m] == apps[m]);
        }
        lemma_key_index_is(once, tile.0, n);
        assert(once.update(n, tile) =~= once);
    }
}

// ---------------------------------------------------------------------------
// Attribute maps
// ---------------------------------------------------------------------------

/// The entry set for `k` is in the result of setting it.
proof fn lemma_insert_sorted_has(es: Seq<(Seq<char>, Seq<char>)>, k: Seq<char>, v: Seq<char>)
    ensures
        exists|j: int| 0 <= j < insert_sorted(es, k, v).len() && insert_sorted(es, k, v)[j] == (k, v),
    decreases es.len(),
{
    let r = insert_sorted(es, k, v);
    if es.len() == 0 {
        assert(r[0] == (k, v));
    } else if es[0].0 == k {
        assert(r[0] == (k, v));
    } else if key_lt(k, es[0].0) {
        assert(r[0] == (k, v));
    } else {
        lemma_insert_sorted_has(es.drop_first(), k, v);
        let t = insert_sorted(es.drop_first(), k, v);
        let j = choose|j: int| 0 <= j < t.len() && t[j] == (k, v);
        assert(r[j + 1] == t[j]);
    }
}

/// In sorted entries each name occurs at most once.
proof fn lemma_sorted_unique(es: Seq<(Seq<char>, Seq<char>)>, i: int, j: int)
    requires
        sorted_keys(es),
        0 <= i < es.len(),
        0 <= j < es.len(),
        es[i].0 == es[j].0,
    ensures
        i == j,
{
    if i < j {
        lemma_key_lt_irrefl(es[i].0);
    } else if j < i {
        lemma_key_lt_irrefl(es[j].0);
    }
}

/// Reading a name just set gives the value set (on sorted entries, as every
/// [`crate::attrs::HtmlAttrs`] holds them).
pub proof fn law_set_then_get(es: Seq<(Seq<char>, Seq<char>)>, k: Seq<char>, v: Seq<char>)
    requires
        sorted_keys(es),
    ensures
        lookup(insert_sorted(es, k, v), k) == Some(v),
{
    lemma_insert_sorted_sorted(es, k, v);
    lemma_insert_sorted_has(es, k, v);
    let r = insert_sorted(es, k, v);
    let j = choose|j: int| 0 <= j < r.len() && r[j] == (k, v);
    assert(r[j].0 == k);
    assert(exists|i: int| 0 <= i < r.len() && r[i].0 == k);
    assert forall|i: int| 0 <= i < r.len() && r[i].0 == k implies #[trigger] r[i].1 == v by {
        lemma_sorted_unique(r, i, j);
    }
}

/// `es` holds the entry `(k, w)`.
pub open spec fn has_entry(es: Seq<(Seq<char>, Seq<char>)>, k: Seq<char>, w: Seq<char>) -> bool {
    exists|j: int| 0 <= j < es.len() && es[j] == (k, w)
}

/// Setting `k` keeps every entry of another name, and adds none.
proof fn lemma_insert_sorted_other(es: Seq<(Seq<char>, Seq<char>)>, k: Seq<char>, v: Seq<char>, k2: Seq<char>, w: Seq<char>)
    requires
        k2 != k,
    ensures
        has_entry(insert_sorted(es, k, v), k2, w) <==> has_entry(es, k2, w),
    decreases es.len(),
{
    let r = insert_sorted(es, k, v);
    if es.len() == 0 {
        if has_entry(r, k2, w) {
            let j = choose|j: int| 0 <= j < r.len() && r[j] == (k2, w);
            assert(r[j] == (k, v));
        }
    } else if es[0].0 == k {
        if has_entry(r, k2, w) {
            let j = choose|j: int| 0 <= j < r.len() && r[j] == (k2, w);
            assert(j != 0);
            assert(es[j] == r[j]);
        }
        if has_entry(es, k2, w) {
            let j = choose|j: int| 0 <= j < es.len() && es[j] == (k2, w);
            assert(j != 0);
            assert(r[j] == es[j]);
        }
    } else if key_lt(k, es[0].0) {
        if has_entry(r, k2, w) {
            let j = choose|j: int| 0 <= j < r.len() && r[j] == (k2, w);
            assert(j != 0);
            assert(es[j - 1] == r[j]);
        }
        if has_entry(es, k2, w) {
            let j = choose|j: int| 0 <= j < es.len() && es[j] == (k2, w);
            assert(r[j + 1] == es[j]);
        }
    } else {
        let t = es.drop_first();
        lemma_insert_sorted_other(t, k, v, k2, w);
        let rt = insert_sorted(t, k, v);
        assert(r == seq![es[0]] + rt);
        if has_entry(r, k2, w) {
            let j = choose|j: int| 0 <= j < r.len() && r[j] == (k2, w);
            if j == 0 {
                assert(es[0] == (k2, w));
            } else {
                assert(rt[j - 1] == (k2, w));
                let m = choose|m: int| 0 <= m < t.len() && t[m] == (k2, w);
                assert(es[m + 1] == (k2, w));
            }
        }
        if has_entry(es, k2, w) {
            let j = choose|j: int| 0 <= j < es.len() && es[j] == (k2, w);
            if j == 0 {
                assert(r[0] == (k2, w));
            } else {
                assert(t[j - 1] == (k2, w));
                let m = choose|m: int| 0 <= m < rt.len() && rt[m] == (k2, w);
                assert(r[m + 1] == (k2, w));
            }
        }
    }
}

/// In sorted entries, reading a name gives the value of its entry.
proof fn lemma_lookup_entry(es: Seq<(Seq<char>, Seq<char>)>, k: Seq<char>, w: Seq<char>)
    requires
        sorted_keys(es),
        has_entry(es, k, w),
    ensures
        lookup(es, k) == Some(w),
{
    let j = choose|j: int| 0 <= j < es.len() && es[j] == (k, w);
    assert(es[j].0 == k);
    assert forall|i: int| 0 <= i < es.len() && es[i].0 == k implies #[trigger] es[i].1 == w by {
        lemma_sorted_unique(es, i, j);
    }
}

/// Setting a name leaves what every other name reads unchanged.
pub proof fn law_set_keeps_others(es: Seq<(Seq<char>, Seq<char>)>, k: Seq<char>, v: Seq<char>, k2: Seq<char>)
    requires
        sorted_keys(es),
        k2 != k,
    ensures
        lookup(insert_sorted(es, k, v), k2) == lookup(es, k2),
{
    lemma_insert_sorted_sorted(es, k, v);
    let r = insert_sorted(es, k, v);
    if exists|m: int| 0 <= m < es.len() && es[m].0 == k2 {
        let m = choose|m: int| 0 <= m < es.len() && es[m].0 == k2;
        let w = es[m].1;
        assert(has_entry(es, k2, w));
        lemma_insert_sorted_other(es, k, v, k2, w);
        lemma_lookup_entry(es, k2, w);
        lemma_lookup_entry(r, k2, w);
    } else {
        assert forall|j: int| 0 <= j < r.len() implies r[j].0 != k2 by {
            if r[j].0 == k2 {
                assert(has_entry(r, k2, r[j].1));
                lemma_insert_sorted_other(es, k, v, k2, r[j].1);
                let m = choose|m: int| 0 <= m < es.len() && es[m] == (k2, r[j].1);
                assert(es[m].0 == k2);
            }
        }
    }
}

/// Merging attribute maps is their union with the other side winning: a name
/// reads the other map's value when it has one, else this map's.
pub proof fn law_merge_other_wins(
    es: Seq<(Seq<char>, Seq<char>)>,
    os: Seq<(Seq<char>, Seq<char>)>,
    k: Seq<char>,
)
    requires
        sorted_keys(es),
        sorted_keys(os),
    ensures
        lookup(merge_entries(es, os), k) == match lookup(os, k) {
            Some(v) => Some(v),
            None => lookup(es, k),
        },
    decreases os.len(),
{
    if os.len() > 0 {
        let e0 = os[0];
        let rest = os.drop_first();
        let es1 = insert_sorted(es, e0.0, e0.1);
        lemma_insert_sorted_sorted(es, e0.0, e0.1);
        assert(sorted_keys(rest)) by {
            assert forall|a: int, b: int| 0 <= a < b < rest.len() implies key_lt(#[trigger] rest[a].0, #[trigger] rest[b].0) by {
                assert(rest[a] == os[a + 1] && rest[b] == os[b + 1]);
            }
        }
        law_merge_other_wins(es1, rest, k);
        if k == e0.0 {
            assert(has_entry(os, k, e0.1)) by {
                assert(os[0] == (k, e0.1));
            }
            lemma_lookup_entry(os, k, e0.1);
            assert forall|j: int| 0 <= j < rest.len() implies rest[j].0 != k by {
                assert(rest[j] == os[j + 1]);
                lemma_key_lt_irrefl(k);
            }
            law_set_then_get(es, k, e0.1);
        } else {
            law_set_keeps_others(es, e0.0, e0.1, k);
            if exists|m: int| 0 <= m < rest.len() && rest[m].0 == k {
                let m = choose|m: int| 0 <= m < rest.len() && rest[m].0 == k;
                let w = rest[m].1;
                assert(rest[m] == os[m + 1]);
                assert(has_entry(rest, k, w));
                assert(has_entry(os, k, w)) by {
                    assert(os[m + 1] == (k, w));
                }
                lemma_lookup_entry(rest, k, w);
                lemma_lookup_entry(os, k, w);
            } else {
                assert forall|j: int| 0 <= j < os.len() implies os[j].0 != k by {
                    if j > 0 {
                        assert(os[j] == rest[j - 1]);
                    }
                }
            }
        }
    }
}

// ---------------------------------------------------------------------------
// Escaping
// ---------------------------------------------------------------------------

/// Markdown text escaping leaves no `<` or `>`: raw HTML in a document is
/// shown as text, never run.
pub proof fn law_escape_text_safe(s: Seq<char>)
    ensures
        !has_char(escape_text(s), '<'),
        !has_char(escape_text(s), '>'),
    decreases s.len(),
{
    if s.len() > 0 {
        law_escape_text_safe(s.drop_last());
        let e = escape_text(s);
        let p = escape_text(s.drop_last());
        let q = escape_text_char(s.last());
        reveal_strlit("&amp;");
        reveal_strlit("&lt;");
        reveal_strlit("&gt;");
        assert(e == p + q);
        assert forall|i: int| 0 <= i < e.len() implies e[i] != '<' && e[i] != '>' by {
            if i >= p.len() {
                assert(e[i] == q[i - p.len()]);
            } else {
                assert(e[i] == p[i]);
            }
        }
    }
}

/// Template escaping leaves no `<`, `>` or `"`.
pub proof fn law_escape_html_safe(s: Seq<char>)
    ensures
        !has_char(escape_html(s), '<'),
        !has_char(escape_html(s), '>'),
        !has_char(escape_html(s), '"'),
    decreases s.len(),
{
    if s.len() > 0 {
        law_escape_html_safe(s.drop_last());
        let e = escape_html(s);
        let p = escape_html(s.drop_last());
        let q = escape_html_char(s.last());
        reveal_strlit("&amp;");
        reveal_strlit("&lt;");
        reveal_strlit("&gt;");
        reveal_strlit("&quot;");
        assert(e == p + q);
        assert forall|i: int| 0 <= i < e.len() implies e[i] != '<' && e[i] != '>' && e[i] != '"' by {
            if i >= p.len() {
                assert(e[i] == q[i - p.len()]);
            } else {
                assert(e[i] == p[i]);
            }
        }
    }
}

// ---------------------------------------------------------------------------
// Decimal round trip
// ---------------------------------------------------------------------------

/// The decimal text of `n` is digits only and reads back as `n`.
pub(crate) proof fn lemma_decimal_digits(n: nat)
    ensures
        decimal(n).len() > 0,
        all_digits(decimal(n)),
        digits_value(decimal(n)) == n,
        decimal(n)[0] != '+',
    decreases n,
{
    let c = digit_char(n % 10);
    assert((c as u32) == 48 + n % 10);
    if n < 10 {
        assert(decimal(n) == seq![c]);
        assert(decimal(n).drop_last() =~= Seq::<char>::empty());
        assert(digits_value(decimal(n)) == digits_value(Seq::<char>::empty()) * 10 + ((c as u32) - ('0' as u32)) as nat);
    }
    if n >= 10 {
        lemma_decimal_digits(n / 10);
        let d = decimal(n);
        let p = decimal(n / 10);
        assert(d == p.push(digit_char(n % 10)));
        assert(d.drop_last() == p);
        assert(digits_value(d) == digits_value(p) * 10 + ((c as u32) - ('0' as u32)) as nat);
        assert(n == (n / 10) * 10 + n % 10);
        assert forall|i: int| 0 <= i < d.len() implies '0' <= #[trigger] d[i] && d[i] <= '9' by {
            if i < p.len() {
                assert(d[i] == p[i]);
            }
        }
        assert(d[0] == p[0]);
    }
}

/// Reading the decimal text of a `u64` gives the number back.
pub proof fn law_parse_decimal_round_trip(n: u64)
    ensures
        parse_u64_spec(decimal(n as nat)) == Some(n),
{
    lemma_decimal_digits(n as nat);
    let d = decimal(n as nat);
    assert(unsigned_digits(d) == d);
    assert(is_u64_syntax(d));
}

// ---------------------------------------------------------------------------
// Dashboard origin
// ---------------------------------------------------------------------------

/// Splitting at a separator that follows `x` splits `x` and the rest apart.
pub proof fn lemma_split_all_concat(x: Seq<char>, y: Seq<char>, sep: char)
    ensures
        split_all(x + seq![sep] + y, sep) == split_all(x, sep) + split_all(y, sep),
    decreases x.len(),
{
    let s = x + seq![sep] + y;
    lemma_find_char(x, sep);
    let i = find_char(x, sep);
    if i < 0 {
        assert forall|j: int| 0 <= j < s.len() && j < x.len() implies s[j] != sep by {
            assert(s[j] == x[j]);
        }
        lemma_find_char_is(s, sep, x.len() as int);
        assert(s.subrange(0, x.len() as int) =~= x);
        assert(s.subrange(x.len() as int + 1, s.len() as int) =~= y);
    } else {
        assert forall|j: int| 0 <= j < s.len() && j < i implies s[j] != sep by {
            assert(s[j] == x[j]);
        }
        lemma_find_char_is(s, sep, i);
        let x2 = x.subrange(i + 1, x.len() as int);
        lemma_split_all_concat(x2, y, sep);
        assert(s.subrange(0, i) =~= x.subrange(0, i));
        assert(s.subrange(i + 1, s.len() as int) =~= x2 + seq![sep] + y);
    }
}

/// Text without the separator splits into itself alone.
proof fn lemma_split_all_none(s: Seq<char>, sep: char)
    requires
        !has_char(s, sep),
    ensures
        split_all(s, sep) == seq![s],
{
    lemma_find_char_is(s, sep, -1);
}

/// `from=dashboard` is the origin pair.
proof fn lemma_origin_pair()
    ensures
        is_origin_pair("from=dashboard"@),
        !has_char("from=dashboard"@, '&'),
        !has_char("from=dashboard"@, '?'),
{
    reveal_strlit("from=dashboard");
    reveal_strlit("from");
    reveal_strlit("dashboard");
    let p = "from=dashboard"@;
    lemma_find_char_is(p, '=', 4);
    assert(p.subrange(0, 4) =~= "from"@);
    assert(p.subrange(5, p.len() as int) =~= "dashboard"@);
    assert(pair_kv(p) == ("from"@, "dashboard"@));
}

/// A query ending in `&from=dashboard` (or being `from=dashboard`) carries the origin pair.
proof fn lemma_has_origin_after(q: Seq<char>)
    ensures
        has_origin_pair(q + "&from=dashboard"@),
        has_origin_pair("from=dashboard"@),
{
    lemma_origin_pair();
    reveal_strlit("&from=dashboard");
    reveal_strlit("from=dashboard");
    let tail = "from=dashboard"@;
    assert(q + "&from=dashboard"@ =~= q + seq!['&'] + tail);
    lemma_split_all_concat(q, tail, '&');
    lemma_split_all_none(tail, '&');
    let parts = split_all(q + "&from=dashboard"@, '&');
    assert(parts[parts.len() - 1] == tail);
    assert(is_origin_pair(parts[parts.len() - 1]));
    assert(split_all(tail, '&')[0] == tail);
}

/// Splitting `a?b` at its first `?`, when `a` has none, gives `a` and `b`.
proof fn lemma_split_once_at(a: Seq<char>, b: Seq<char>)
    requires
        !has_char(a, '?'),
    ensures
        split_once(a + seq!['?'] + b, '?') == (a, Some(b)),
{
    let s = a + seq!['?'] + b;
    assert forall|j: int| 0 <= j < s.len() && j < a.len() implies s[j] != '?' by {
        assert(s[j] == a[j]);
    }
    lemma_find_char_is(s, '?', a.len() as int);
    assert(s.subrange(0, a.len() as int) =~= a);
    assert(s.subrange(a.len() as int + 1, s.len() as int) =~= b);
}

/// Merging the dashboard origin into a link twice is merging it once.
pub proof fn law_append_from_dashboard_idempotent(href: Seq<char>)
    ensures
        append_from_dashboard_spec(append_from_dashboard_spec(href)) == append_from_dashboard_spec(href),
{
    let (path, query) = split_once(href, '?');
    lemma_find_char(href, '?');
    let i = find_char(href, '?');
    assert(!has_char(path, '?')) by {
        if i >= 0 {
            assert forall|j: int| 0 <= j < path.len() implies path[j] != '?' by {
                assert(path[j] == href[j]);
            }
        }
    }
    lemma_has_origin_after(match query { Some(q) => q, None => seq![] });
    reveal_strlit("?from=dashboard");
    reveal_strlit("from=dashboard");
    let once = append_from_dashboard_spec(href);
    if !(crate::nav_origin::is_dashboard_path_spec(path) || query_has_from_dashboard_spec(query)) {
        match query {
            Some(q) => {
                if q.len() > 0 {
                    assert(once =~= path + seq!['?'] + (q + "&from=dashboard"@));
                    lemma_split_once_at(path, q + "&from=dashboard"@);
                } else {
                    assert(once =~= path + seq!['?'] + "from=dashboard"@);
                    lemma_split_once_at(path, "from=dashboard"@);
                }
            },
            None => {
                assert(once =~= path + seq!['?'] + "from=dashboard"@);
                lemma_split_once_at(path, "from=dashboard"@);
            },
        }
    }
}

// ---------------------------------------------------------------------------
// Lengths
// ---------------------------------------------------------------------------

/// A length read from text is storable: its magnitude is at most `MAX_NM`.
proof fn lemma_parsed_in_range(s: Seq<char>, u: nat)
    ensures
        parse_length_spec(s, u) matches LengthParse::Nm(n) ==> -(MAX_NM as int) <= n <= MAX_NM,
{
}

/// The canonical millimetre text of a storable length reads back as the same length.
pub proof fn law_mm_text_reads_back(n: i64)
    requires
        -(MAX_NM as int) <= n <= MAX_NM,
    ensures
        parse_length_spec(format_nm_spec(n as int, mm_nm()), mm_nm()) == LengthParse::Nm(n),
        parse_mm_spec(format_nm_spec(n as int, mm_nm())) == Ok::<i64, LengthError>(n),
{
    lemma_mm_round_trip(n);
}

/// Canonicalising a millimetre text twice is canonicalising it once.
pub proof fn law_normalize_mm_idempotent(s: Seq<char>)
    ensures
        normalize_mm_spec(s) matches Ok(t) ==> normalize_mm_spec(t) == Ok::<Seq<char>, LengthError>(t),
{
    lemma_parsed_in_range(s, mm_nm());
    match parse_length_spec(s, mm_nm()) {
        LengthParse::Empty => {
            let e = Seq::<char>::empty();
            assert(crate::text::trim_start(e) == e);
            assert(crate::text::trim_end(e) == e);
            assert(crate::length::remove_commas(e) == e);
        },
        LengthParse::Nm(n) => {
            lemma_mm_round_trip(n);
        },
        _ => {},
    }
}

/// The submitted value is always millimetres: when the value reads as a length,
/// the input submits its canonical millimetre text, whatever unit is shown, that
/// text reads back as the same length, and the visible text is that length in
/// the shown unit.
pub proof fn law_length_submits_millimetres(value: Seq<char>, unit: LengthUnit, n: i64)
    requires
        parse_length_spec(value, mm_nm()) == LengthParse::Nm(n),
    ensures
        submitted_mm(value) == format_nm_spec(n as int, mm_nm()),
        parse_mm_spec(submitted_mm(value)) == Ok::<i64, LengthError>(n),
        shown_value(value, unit) == format_nm_spec(n as int, unit.nm_spec()),
{
    lemma_parsed_in_range(value, mm_nm());
    lemma_mm_round_trip(n);
    let mm = format_nm_spec(n as int, mm_nm());
    if mm.len() == 0 {
        assert(mm.len() > 0) by {
            crate::laws::lemma_decimal_digits(((if n < 0 { -n } else { n as int }) / 1_000_000) as nat);
        }
    }
}

// ---------------------------------------------------------------------------
// Sort cycle
// ---------------------------------------------------------------------------

/// No white space in `s`.
pub open spec fn no_whitespace(s: Seq<char>) -> bool {
    forall|i: int| 0 <= i < s.len() ==> !crate::text::is_whitespace(#[trigger] s[i])
}

proof fn lemma_ws_first_after_word(k: Seq<char>, rest: Seq<char>)
    requires
        no_whitespace(k),
        rest.len() > 0,
        crate::text::is_whitespace(rest[0]),
    ensures
        crate::text::ws_first(k + rest) == k.len(),
    decreases k.len(),
{
    if k.len() > 0 {
        assert((k + rest).drop_first() == k.drop_first() + rest);
        assert((k + rest)[0] == k[0]);
        lemma_ws_first_after_word(k.drop_first(), rest);
    } else {
        assert(k + rest == rest);
    }
}

proof fn lemma_ws_last_before_word(front: Seq<char>, w: Seq<char>)
    requires
        no_whitespace(w),
        front.len() > 0,
        crate::text::is_whitespace(front.last()),
    ensures
        crate::text::ws_last(front + w) == front.len() - 1,
    decreases w.len(),
{
    if w.len() > 0 {
        assert((front + w).drop_last() == front + w.drop_last());
        assert((front + w).last() == w.last());
        lemma_ws_last_before_word(front, w.drop_last());
    } else {
        assert(front + w == front);
    }
}

/// `"{k} {dir}"` read back: its column is `k` and its direction `dir`.
proof fn lemma_sort_words(k: Seq<char>, dir: Seq<char>)
    requires
        k.len() > 0,
        no_whitespace(k),
        dir.len() > 0,
        no_whitespace(dir),
    ensures
        crate::text::trim(k + seq![' '] + dir) == k + seq![' '] + dir,
        crate::text::first_word(k + seq![' '] + dir) == k,
        crate::text::last_word(k + seq![' '] + dir) == dir,
{
    let c = k + seq![' '] + dir;
    assert(crate::text::is_whitespace(' '));
    assert(c[0] == k[0]);
    assert(c.last() == dir.last());
    assert(crate::text::trim_start(c) == c);
    assert(crate::text::trim_end(c) == c);
    assert(k + seq![' '] + dir == k + (seq![' '] + dir));
    lemma_ws_first_after_word(k, seq![' '] + dir);
    assert(c.subrange(0, k.len() as int) == k);
    lemma_ws_last_before_word(k + seq![' '], dir);
    assert(c.subrange(k.len() as int + 1, c.len() as int) == dir);
}

/// Clicking a column header cycles its sort: none, ascending, descending, none.
pub proof fn law_sort_cycle(k: Seq<char>)
    requires
        k.len() > 0,
        no_whitespace(k),
    ensures
        next_sort_clause_spec(Seq::<char>::empty(), k) == Some(k + " ASC"@),
        next_sort_clause_spec(k + " ASC"@, k) == Some(k + " DESC"@),
        next_sort_clause_spec(k + " DESC"@, k) is None,
{
    reveal_strlit(" ASC");
    reveal_strlit(" DESC");
    reveal_strlit("DESC");
    let e = Seq::<char>::empty();
    assert(crate::text::trim_start(e) == e);
    assert(crate::text::trim_end(e) == e);
    let asc = seq!['A', 'S', 'C'];
    let desc = seq!['D', 'E', 'S', 'C'];
    assert(no_whitespace(asc));
    assert(no_whitespace(desc));
    assert(" ASC"@ == seq![' '] + asc);
    assert(" DESC"@ == seq![' '] + desc);
    assert(k + " ASC"@ == k + seq![' '] + asc);
    assert(k + " DESC"@ == k + seq![' '] + desc);
    lemma_sort_words(k, asc);
    lemma_sort_words(k, desc);
    assert(crate::text::eq_ignore_ascii_case(k, k));
    assert(crate::text::ascii_upper_seq(desc) =~= "DESC"@);
    assert(crate::text::ascii_upper_seq(asc) =~= asc);
    assert(asc != "DESC"@) by {
        assert(asc.len() != "DESC"@.len());
    }
}

/// A character whose ASCII lower case is that of an ASCII letter is that
/// letter in one case or the other, so its ASCII upper case is the upper letter.
proof fn lemma_upper_of_lower_match(c: char, l: char)
    requires
        'A' <= l <= 'Z',
        crate::text::ascii_lower(c) == crate::text::ascii_lower(l),
    ensures
        crate::text::ascii_upper(c) == l,
{
}

/// The header arrow agrees with what a click does: no arrow exactly when the
/// click sorts the column ascending (from no sort or another column's sort), an
/// arrow when the column is already the sort, and a down arrow only when the
/// click clears the sort.
pub proof fn law_sort_indicator_matches_next(s: Seq<char>, k: Seq<char>)
    ensures
        sort_indicator_spec(s, k) == ""@ || sort_indicator_spec(s, k) == " ▲"@ || sort_indicator_spec(s, k)
            == " ▼"@,
        (sort_indicator_spec(s, k) == ""@) <==> (next_sort_clause_spec(s, k) == Some(k + " ASC"@)),
        sort_indicator_spec(s, k) == " ▼"@ ==> next_sort_clause_spec(s, k) is None,
{
    reveal_strlit("");
    reveal_strlit(" ▲");
    reveal_strlit(" ▼");
    reveal_strlit(" ASC");
    reveal_strlit(" DESC");
    reveal_strlit("DESC");
    let cur = crate::text::trim(s);
    assert(" ▲"@ != ""@ && " ▼"@ != ""@ && " ▲"@ != " ▼"@) by {
        assert(" ▲"@.len() == 2 && " ▼"@.len() == 2 && ""@.len() == 0);
        assert(" ▲"@[1] != " ▼"@[1]);
    }
    if cur.len() > 0 && crate::text::eq_ignore_ascii_case(crate::text::first_word(cur), k) {
        assert((k + " ASC"@).len() != (k + " DESC"@).len());
        assert(k + " ASC"@ != k + " DESC"@);
        let lw = crate::text::last_word(cur);
        let d = "DESC"@;
        if crate::text::eq_ignore_ascii_case(lw, d) {
            assert forall|i: int| 0 <= i < lw.len() implies crate::text::ascii_upper(#[trigger] lw[i]) == d[i] by {
                lemma_upper_of_lower_match(lw[i], d[i]);
            }
            assert(crate::text::ascii_upper_seq(lw) =~= d);
        }
        assert(sort_indicator_spec(s, k) != ""@);
        assert(next_sort_clause_spec(s, k) != Some(k + " ASC"@));
    }
}

// ---------------------------------------------------------------------------
// Registries: the newest registration wins
// ---------------------------------------------------------------------------

/// A command prepended under `name` is the one dispatch finds for `name`; for
/// every other name dispatch finds what it found before (one place later), or
/// still nothing.
pub proof fn law_dispatch_finds_newest(
    cs: Seq<(Seq<char>, Seq<char>)>,
    name: Seq<char>,
    about: Seq<char>,
    other: Seq<char>,
)
    requires
        other != name,
    ensures
        command_index(seq![(name, about)] + cs, name) == 0,
        command_index(seq![(name, about)] + cs, other) == (if command_index(cs, other) < 0 {
            -1
        } else {
            command_index(cs, other) + 1
        }),
{
    let s = seq![(name, about)] + cs;
    assert(s[0].0 == name);
    assert(s.drop_first() == cs);
}

/// A slot whose tag is registered keeps being found after its bucket is
/// replaced, now with the new bucket; no other slot changes.
pub proof fn law_replace_slot_then_get(s: Seq<(Seq<char>, SlotKind)>, tag: Seq<char>, kind: SlotKind)
    requires
        slot_index(s, tag) >= 0,
    ensures
        slot_index(s.update(slot_index(s, tag), (tag, kind)), tag) == slot_index(s, tag),
        s.update(slot_index(s, tag), (tag, kind))[slot_index(s, tag)].1 == kind,
{
    lemma_slot_index(s, tag);
    let i = slot_index(s, tag);
    let t = s.update(i, (tag, kind));
    lemma_slot_index(t, tag);
    let j = slot_index(t, tag);
    if j < i {
        assert(t[j] == s[j]);
    } else if j > i || j < 0 {
        assert(t[i].0 == tag);
    }
}

// ---------------------------------------------------------------------------
// Breadcrumbs
// ---------------------------------------------------------------------------

proof fn lemma_crumbs_first(items: Seq<Crumb>)
    requires
        items.len() > 0,
    ensures
        crumbs_spec(items) == crumb_spec(items[0]) + crumbs_spec(items.drop_first()),
    decreases items.len(),
{
    if items.len() == 1 {
        assert(items.drop_last() =~= Seq::<Crumb>::empty());
        assert(items.drop_first() =~= Seq::<Crumb>::empty());
    } else {
        lemma_crumbs_first(items.drop_last());
        assert(items.drop_last().drop_first() == items.drop_first().drop_last());
        assert(items.drop_first().last() == items.last());
        assert(items.drop_last()[0] == items[0]);
    }
}

/// Arriving from the dashboard puts the dashboard crumb first, and only once:
/// a trail that already starts with it is rendered as it would be otherwise.
pub proof fn law_dashboard_crumb_once(items: Seq<Crumb>)
    ensures
        items.len() > 0 && is_dashboard_crumb(items[0]) ==> breadcrumbs_spec(items, true) == breadcrumbs_spec(
            items,
            false,
        ),
        starts_with_after_open(
            breadcrumbs_spec(items, true),
            crumb_li_spec(DASHBOARD_LABEL@, Some(DASHBOARD_URL@)),
        ),
{
    let open = "<div class=\"breadcrumbs text-sm min-w-0 flex-1 overflow-x-auto\"><ul>"@;
    let d = crumb_li_spec(DASHBOARD_LABEL@, Some(DASHBOARD_URL@));
    let r = breadcrumbs_spec(items, true);
    if items.len() > 0 && is_dashboard_crumb(items[0]) {
        lemma_crumbs_first(items);
        let c = items[0];
        assert(crumb_spec(c) == d);
        assert(r == open + seq![] + crumbs_spec(items) + "</ul></div>"@);
        assert(r == open + (d + (crumbs_spec(items.drop_first()) + "</ul></div>"@)));
    } else {
        assert(r == open + d + crumbs_spec(items) + "</ul></div>"@);
        assert(r == open + (d + (crumbs_spec(items) + "</ul></div>"@)));
    }
}

/// `s` is the breadcrumb opening followed by `first` and then anything.
pub open spec fn starts_with_after_open(s: Seq<char>, first: Seq<char>) -> bool {
    exists|rest: Seq<char>|
        s == "<div class=\"breadcrumbs text-sm min-w-0 flex-1 overflow-x-auto\"><ul>"@ + (first + rest)
}

// ---------------------------------------------------------------------------
// Splat routes
// ---------------------------------------------------------------------------

/// Joining a first part to a non-empty list of parts.
proof fn lemma_join_prepend(a: Seq<char>, b: Seq<Seq<char>>, sep: Seq<char>)
    requires
        b.len() >= 1,
    ensures
        join(seq![a] + b, sep) == a + sep + join(b, sep),
    decreases b.len(),
{
    let ab = seq![a] + b;
    assert(ab.len() >= 2);
    assert(join(ab, sep) == join(ab.drop_last(), sep) + sep + ab.last());
    if b.len() == 1 {
        assert(ab.drop_last() =~= seq![a]);
        assert(join(seq![a], sep) == a);
        assert(ab.last() == b[0]);
        assert(join(b, sep) == b[0]);
    } else {
        lemma_join_prepend(a, b.drop_last(), sep);
        assert(ab.drop_last() =~= seq![a] + b.drop_last());
        assert(ab.last() == b.last());
        assert(join(b, sep) == join(b.drop_last(), sep) + sep + b.last());
        assert(a + sep + join(b.drop_last(), sep) + sep + b.last() =~= a + sep + (join(b.drop_last(), sep) + sep
            + b.last()));
    }
}

/// Joining the `sep`-separated pieces of a text with `sep` gives the text back.
pub proof fn law_split_join(s: Seq<char>, sep: char)
    ensures
        join(split_all(s, sep), seq![sep]) == s,
    decreases s.len(),
{
    lemma_find_char(s, sep);
    let i = find_char(s, sep);
    if i >= 0 {
        let rest = s.subrange(i + 1, s.len() as int);
        law_split_join(rest, sep);
        lemma_join_prepend(s.subrange(0, i), split_all(rest, sep), seq![sep]);
        assert(s =~= s.subrange(0, i) + seq![sep] + rest);
    }
}

/// A splat route read back: the pieces `splat_from` reads from a path tail
/// (none for an empty tail, else the `/`-separated pieces) fill the route's
/// splat with that same tail, so the route's path is its static prefix joined
/// to the tail.
pub proof fn law_splat_path_round_trip(segs: Seq<SegmentView>, tail: Seq<char>, pieces: Vec<String>)
    requires
        params_of(segs).len() == 1,
        param_splat(params_of(segs)[0]),
        pieces@.map_values(|p: String| p@) == (if tail.len() == 0 {
            Seq::<Seq<char>>::empty()
        } else {
            split_all(tail, '/')
        }),
    ensures
        value_text(ParamValue::Many(pieces)) == tail,
        route_path_spec(segs, seq![ParamValue::Many(pieces)]) == ({
            let prefix = static_text(segs);
            if prefix.len() == 0 || prefix == "/"@ {
                "/"@ + tail
            } else if tail.len() == 0 {
                trim_end_char(prefix, '/')
            } else {
                trim_end_char(prefix, '/') + "/"@ + tail
            }
        }),
{
    assert("/"@ == seq!['/']) by {
        reveal_strlit("/");
    }
    let parts = pieces@.map_values(|p: String| p@);
    assert(value_text(ParamValue::Many(pieces)) == join(parts, "/"@));
    if tail.len() > 0 {
        law_split_join(tail, '/');
    } else {
        assert(parts.len() == 0);
    }
    assert(value_text(ParamValue::Many(pieces)) == tail);
    if tail.len() == 0 {
        assert("/"@ + tail =~= "/"@);
    }
}

// ---------------------------------------------------------------------------
// Sidebar paths
// ---------------------------------------------------------------------------

/// Trimming trailing `c`s keeps a prefix that does not end with `c`.
proof fn lemma_trim_end_char(s: Seq<char>, c: char)
    ensures
        trim_end_char(s, c).len() <= s.len(),
        trim_end_char(s, c) == s.subrange(0, trim_end_char(s, c).len() as int),
        !(trim_end_char(s, c).len() > 0 && trim_end_char(s, c).last() == c),
    decreases s.len(),
{
    if s.len() > 0 && s.last() == c {
        lemma_trim_end_char(s.drop_last(), c);
        let t = trim_end_char(s.drop_last(), c);
        assert(s.drop_last().subrange(0, t.len() as int) =~= s.subrange(0, t.len() as int));
    } else {
        assert(s.subrange(0, s.len() as int) =~= s);
    }
}

/// A sidebar path as matched: no query, a prefix of what it came from, no
/// trailing slash but for the root itself, and normalising it again changes
/// nothing.
pub proof fn law_normalize_nav_path(s: Seq<char>)
    ensures
        !has_char(normalize_nav_path_spec(s), '?'),
        starts_with(s, normalize_nav_path_spec(s)),
        ends_with(normalize_nav_path_spec(s), seq!['/']) ==> normalize_nav_path_spec(s) == seq!['/'],
        normalize_nav_path_spec(normalize_nav_path_spec(s)) == normalize_nav_path_spec(s),
{
    lemma_find_char(s, '?');
    let path = split_once(s, '?').0;
    assert(path == s.subrange(0, path.len() as int));
    assert(!has_char(path, '?')) by {
        if find_char(s, '?') >= 0 {
            assert forall|j: int| 0 <= j < path.len() implies path[j] != '?' by {
                assert(path[j] == s[j]);
            }
        }
    }
    let r = normalize_nav_path_spec(s);
    if path.len() > 1 && ends_with(path, seq!['/']) {
        lemma_trim_end_char(path, '/');
        assert(r == path.subrange(0, r.len() as int));
        assert forall|j: int| 0 <= j < r.len() implies r[j] != '?' by {
            assert(r[j] == path[j]);
        }
        assert(s.subrange(0, r.len() as int) =~= r);
        if ends_with(r, seq!['/']) {
            assert(r[r.len() - 1] == r.subrange(r.len() - 1, r.len() as int)[0]);
        }
    } else {
        assert(s.subrange(0, r.len() as int) =~= r);
        if ends_with(r, seq!['/']) {
            assert(r[r.len() - 1] == r.subrange(r.len() - 1, r.len() as int)[0]);
            assert(r =~= seq!['/']);
        }
    }
    lemma_find_char_is(r, '?', -1);
    assert(split_once(r, '?').0 == r);
}

// ---------------------------------------------------------------------------
// Attribute escaping
// ---------------------------------------------------------------------------

/// Attribute-escaped text read back: `&amp;`, `&quot;` and `&lt;` (checked in
/// that order at each position, left to right) become `&`, `"` and `<`, every
/// other character is kept.
pub open spec fn unescape_attr(s: Seq<char>) -> Seq<char>
    decreases s.len(),
{
    if s.len() == 0 {
        seq![]
    } else if starts_with(s, seq!['&', 'a', 'm', 'p', ';']) {
        seq!['&'] + unescape_attr(s.subrange(5, s.len() as int))
    } else if starts_with(s, seq!['&', 'q', 'u', 'o', 't', ';']) {
        seq!['"'] + unescape_attr(s.subrange(6, s.len() as int))
    } else if starts_with(s, seq!['&', 'l', 't', ';']) {
        seq!['<'] + unescape_attr(s.subrange(4, s.len() as int))
    } else {
        seq![s[0]] + unescape_attr(s.drop_first())
    }
}

/// At `i` of `s` starts one of the three attribute entities.
pub open spec fn entity_at(s: Seq<char>, i: int) -> bool {
    let t = s.subrange(i, s.len() as int);
    starts_with(t, seq!['&', 'a', 'm', 'p', ';']) || starts_with(t, seq!['&', 'q', 'u', 'o', 't', ';'])
        || starts_with(t, seq!['&', 'l', 't', ';'])
}

/// Every `&` of `s` starts `&amp;`, `&quot;` or `&lt;`.
pub open spec fn amps_start_entities(s: Seq<char>) -> bool {
    forall|i: int| 0 <= i < s.len() && s[i] == '&' ==> #[trigger] entity_at(s, i)
}

/// Reading back one escaped character in front of more escaped text.
proof fn lemma_unescape_attr_char(c: char, rest: Seq<char>)
    ensures
        unescape_attr(escape_attr_char(c) + rest) == seq![c] + unescape_attr(rest),
{
    let e = escape_attr_char(c) + rest;
    let n = escape_attr_char(c).len() as int;
    assert(e.subrange(n, e.len() as int) =~= rest);
    if c == '&' {
        assert(e.subrange(0, 5) =~= seq!['&', 'a', 'm', 'p', ';']);
    } else if c == '"' {
        assert(e[1] == 'q');
        assert(e.subrange(0, 6) =~= seq!['&', 'q', 'u', 'o', 't', ';']);
    } else if c == '<' {
        assert(e[1] == 'l');
        assert(e.subrange(0, 4) =~= seq!['&', 'l', 't', ';']);
    } else {
        assert(e[0] == c);
        assert(e.drop_first() =~= rest);
    }
}

/// Attribute escaping is safe and lossless: the escaped text holds no raw `"`
/// or `<`, every `&` in it starts one of the three entities, and reading its
/// entities back gives the text that was escaped.
pub proof fn law_escape_attr_round_trip(s: Seq<char>)
    ensures
        !has_char(escape_attr_seq(s), '"'),
        !has_char(escape_attr_seq(s), '<'),
        amps_start_entities(escape_attr_seq(s)),
        unescape_attr(escape_attr_seq(s)) == s,
    decreases s.len(),
{
    lemma_escape_attr_safe(s);
    if s.len() > 0 {
        let rest = s.drop_first();
        law_escape_attr_round_trip(rest);
        lemma_escape_attr_add(seq![s[0]], rest);
        assert(seq![s[0]] + rest =~= s);
        assert(seq![s[0]].drop_last() =~= Seq::<char>::empty());
        assert(escape_attr_seq(seq![s[0]]) == escape_attr_seq(seq![s[0]].drop_last()) + escape_attr_char(
            seq![s[0]].last(),
        ));
        assert(escape_attr_seq(Seq::<char>::empty()) == Seq::<char>::empty());
        assert(Seq::<char>::empty() + escape_attr_char(s[0]) =~= escape_attr_char(s[0]));
        assert(escape_attr_seq(seq![s[0]]) == escape_attr_char(s[0]));
        lemma_unescape_attr_char(s[0], escape_attr_seq(rest));
        assert(seq![s[0]] + rest =~= s);
        let e = escape_attr_seq(s);
        let c = escape_attr_char(s[0]);
        let t = escape_attr_seq(rest);
        assert(e == c + t);
        assert forall|i: int| 0 <= i < e.len() && e[i] == '&' implies #[trigger] entity_at(e, i) by {
            if i >= c.len() {
                assert(e[i] == t[i - c.len()]);
                assert(entity_at(t, i - c.len()));
                assert(e.subrange(i, e.len() as int) =~= t.subrange(i - c.len(), t.len() as int));
            } else {
                assert(e[i] == c[i]);
                assert(i == 0);
                if s[0] == '&' {
                    assert(e.subrange(0, e.len() as int).subrange(0, 5) =~= seq!['&', 'a', 'm', 'p', ';']);
                } else if s[0] == '"' {
                    assert(e.subrange(0, e.len() as int).subrange(0, 6) =~= seq!['&', 'q', 'u', 'o', 't', ';']);
                } else {
                    assert(s[0] == '<');
                    assert(e.subrange(0, e.len() as int).subrange(0, 4) =~= seq!['&', 'l', 't', ';']);
                }
            }
        }
    } else {
        assert(escape_attr_seq(s).len() == 0);
    }
}

// ---------------------------------------------------------------------------
// Path templates
// ---------------------------------------------------------------------------

/// The template text a segment stands for: literal text as it is, a
/// placeholder as `{name}` or `{*name}`.
pub open spec fn segment_text(v: SegmentView) -> Seq<char> {
    match v {
        SegmentView::Lit(t) => t,
        SegmentView::Param(n, splat) => seq!['{'] + (if splat { seq!['*'] } else { seq![] }) + n + seq!['}'],
    }
}

/// The template text of a list of segments, in order.
pub open spec fn segments_text(ss: Seq<SegmentView>) -> Seq<char>
    decreases ss.len(),
{
    if ss.len() == 0 {
        seq![]
    } else {
        segment_text(ss[0]) + segments_text(ss.drop_first())
    }
}

/// Every `{` has a `}` somewhere after it.
pub open spec fn braces_closed(s: Seq<char>) -> bool {
    forall|i: int| 0 <= i < s.len() && s[i] == '{' ==> exists|j: int| i < j < s.len() && s[j] == '}'
}

/// Segments in the shape a template splits into: no empty literal, and no two
/// literals next to each other.
pub open spec fn segments_well_formed(ss: Seq<SegmentView>) -> bool {
    &&& forall|i: int| 0 <= i < ss.len() ==> (#[trigger] ss[i] matches SegmentView::Lit(t) ==> t.len() > 0)
    &&& forall|i: int| 0 <= i < ss.len() - 1 ==> !(#[trigger] ss[i] is Lit && ss[i + 1] is Lit)
}

/// The text of segments put one after another.
proof fn lemma_segments_text_add(a: Seq<SegmentView>, b: Seq<SegmentView>)
    ensures
        segments_text(a + b) == segments_text(a) + segments_text(b),
    decreases a.len(),
{
    if a.len() == 0 {
        assert(a + b =~= b);
    } else {
        lemma_segments_text_add(a.drop_first(), b);
        assert((a + b).drop_first() =~= a.drop_first() + b);
        assert(segments_text(a) + segments_text(b) =~= segment_text(a[0]) + (segments_text(a.drop_first())
            + segments_text(b)));
    }
}

/// The text of one segment alone.
proof fn lemma_segments_text_one(v: SegmentView)
    ensures
        segments_text(seq![v]) == segment_text(v),
{
    let one = seq![v];
    assert(one.drop_first() =~= Seq::<SegmentView>::empty());
    assert(one[0] == v);
    assert(segments_text(one.drop_first()) == Seq::<char>::empty());
    assert(segments_text(one) == segment_text(one[0]) + segments_text(one.drop_first()));
    assert(segment_text(v) + Seq::<char>::empty() =~= segment_text(v));
}

/// A placeholder's text is its inner text in braces.
proof fn lemma_placeholder_text(inner: Seq<char>)
    ensures
        segment_text(placeholder(inner)) == seq!['{'] + inner + seq!['}'],
{
    if inner.len() > 0 && inner[0] == '*' {
        assert(seq!['*'] + inner.drop_first() =~= inner);
        assert(seq!['{'] + seq!['*'] + inner.drop_first() + seq!['}'] =~= seq!['{'] + inner + seq!['}']);
    } else {
        assert(seq!['{'] + Seq::<char>::empty() + inner + seq!['}'] =~= seq!['{'] + inner + seq!['}']);
    }
}

/// A template whose braces all close splits into segments that spell it out
/// again, with no empty literal and no two literals in a row.
pub proof fn law_parse_path_rebuilds(s: Seq<char>)
    requires
        braces_closed(s),
    ensures
        segments_text(segments_of(s)) == s,
        segments_well_formed(segments_of(s)),
    decreases s.len(),
{
    lemma_find_char(s, '{');
    let open = find_char(s, '{');
    if open < 0 {
        if s.len() > 0 {
            lemma_segments_text_one(SegmentView::Lit(s));
        }
    } else {
        let before: Seq<SegmentView> = if open > 0 {
            seq![SegmentView::Lit(s.subrange(0, open))]
        } else {
            seq![]
        };
        let after = s.subrange(open + 1, s.len() as int);
        lemma_find_char(after, '}');
        let close = find_char(after, '}');
        let j = choose|j: int| open < j < s.len() && s[j] == '}';
        assert(after[j - open - 1] == '}');
        assert(close >= 0);
        let inner = after.subrange(0, close);
        let tail = after.subrange(close + 1, after.len() as int);
        assert forall|i: int| 0 <= i < tail.len() && tail[i] == '{' implies exists|k: int|
            i < k < tail.len() && tail[k] == '}' by {
            let m = i + open + close + 2;
            assert(s[m] == tail[i]);
            let k2 = choose|k2: int| m < k2 < s.len() && s[k2] == '}';
            assert(tail[k2 - open - close - 2] == '}');
        }
        law_parse_path_rebuilds(tail);
        let p = placeholder(inner);
        let rest_segs = segments_of(tail);
        let segs = before + seq![p] + rest_segs;
        assert(segments_of(s) == segs);
        lemma_segments_text_add(before + seq![p], rest_segs);
        lemma_segments_text_add(before, seq![p]);
        lemma_placeholder_text(inner);
        lemma_segments_text_one(p);
        if open > 0 {
            lemma_segments_text_one(SegmentView::Lit(s.subrange(0, open)));
        } else {
            assert(s.subrange(0, open) =~= Seq::<char>::empty());
        }
        assert(segments_text(before) == s.subrange(0, open));
        assert(s =~= s.subrange(0, open) + (seq!['{'] + inner + seq!['}']) + tail);
        assert(!(p is Lit));
        assert forall|i: int| 0 <= i < segs.len() implies (#[trigger] segs[i] matches SegmentView::Lit(t) ==> t.len()
            > 0) by {
            if i >= before.len() + 1 {
                assert(segs[i] == rest_segs[i - before.len() - 1]);
            }
        }
        assert forall|i: int| 0 <= i < segs.len() - 1 implies !(#[trigger] segs[i] is Lit && segs[i + 1] is Lit) by {
            if i >= before.len() + 1 {
                assert(segs[i] == rest_segs[i - before.len() - 1]);
                assert(segs[i + 1] == rest_segs[i - before.len()]);
            } else if i == before.len() {
                assert(segs[i] == p);
            } else {
                assert(segs[i + 1] == p);
            }
        }
    }
}

// ---------------------------------------------------------------------------
// Column sort links
// ---------------------------------------------------------------------------

/// `key=value` of a query pair.
pub open spec fn kv_text(p: (Seq<char>, Seq<char>)) -> Seq<char> {
    p.0 + seq!['='] + p.1
}

/// The query pieces kept by a sort link, as they were written: those holding
/// `=` whose key (the text before the first `=`) is neither `a` nor `b`, in
/// order.
pub open spec fn kept_pieces(pieces: Seq<Seq<char>>, a: Seq<char>, b: Seq<char>) -> Seq<Seq<char>>
    decreases pieces.len(),
{
    if pieces.len() == 0 {
        seq![]
    } else {
        let rest = kept_pieces(pieces.drop_last(), a, b);
        let piece = pieces.last();
        if has_char(piece, '=') && split_once(piece, '=').0 != a && split_once(piece, '=').0 != b {
            rest.push(piece)
        } else {
            rest
        }
    }
}

/// The kept pairs written back are the kept pieces.
proof fn lemma_kept_pairs_text(pieces: Seq<Seq<char>>, a: Seq<char>, b: Seq<char>)
    ensures
        kept_pairs(pieces, a, b).map_values(|p: (Seq<char>, Seq<char>)| kv_text(p)) == kept_pieces(pieces, a, b),
    decreases pieces.len(),
{
    if pieces.len() > 0 {
        lemma_kept_pairs_text(pieces.drop_last(), a, b);
        let piece = pieces.last();
        lemma_find_char(piece, '=');
        let i = find_char(piece, '=');
        if i >= 0 {
            assert(has_char(piece, '='));
            assert(piece =~= piece.subrange(0, i) + seq!['='] + piece.subrange(i + 1, piece.len() as int));
        } else {
            assert(!has_char(piece, '='));
        }
        let rest = kept_pairs(pieces.drop_last(), a, b);
        let (k, v) = split_once(piece, '=');
        if v is Some && k != a && k != b {
            assert(rest.push((k, v->Some_0)).map_values(|p: (Seq<char>, Seq<char>)| kv_text(p)) =~= rest.map_values(
                |p: (Seq<char>, Seq<char>)| kv_text(p),
            ).push(kv_text((k, v->Some_0))));
        }
    }
}

/// A query string is its pairs written `key=value` and joined by `&`.
proof fn lemma_query_string_join(ps: Seq<(Seq<char>, Seq<char>)>)
    ensures
        query_string(ps) == join(ps.map_values(|p: (Seq<char>, Seq<char>)| kv_text(p)), seq!['&']),
    decreases ps.len(),
{
    let m = ps.map_values(|p: (Seq<char>, Seq<char>)| kv_text(p));
    if ps.len() == 1 {
        assert(m[0] == kv_text(ps[0]));
    } else if ps.len() > 1 {
        lemma_query_string_join(ps.drop_last());
        assert(ps.drop_last().map_values(|p: (Seq<char>, Seq<char>)| kv_text(p)) =~= m.drop_last());
        assert(m.last() == kv_text(ps.last()));
        assert(query_string(ps) =~= join(m.drop_last(), seq!['&']) + seq!['&'] + m.last());
    }
}

/// A column's sort link, read as text: the path, `?`, then the query pieces
/// that hold `=` and are neither `sort` nor `page` (as they were written, in
/// order), `page=1`, and `sort=` with the next sort clause (spaces as `+`)
/// unless the click clears the sort, all joined by `&`.
pub proof fn law_column_sort_url(path_and_query: Seq<char>, column_key: Seq<char>, current_sort: Seq<char>)
    ensures
        column_sort_url_spec(path_and_query, column_key, current_sort) == ({
            let path = split_once(path_and_query, '?').0;
            let query = match split_once(path_and_query, '?').1 {
                Some(x) => x,
                None => Seq::<char>::empty(),
            };
            let pieces = if query.len() == 0 { Seq::<Seq<char>>::empty() } else { split_all(query, '&') };
            let tail: Seq<Seq<char>> = match next_sort_clause_spec(current_sort, column_key) {
                Some(n) => seq!["page=1"@, "sort="@ + n.map_values(|c: char| if c == ' ' { '+' } else { c })],
                None => seq!["page=1"@],
            };
            path + seq!['?'] + join(kept_pieces(pieces, "sort"@, "page"@) + tail, seq!['&'])
        }),
{
    reveal_strlit("page=1");
    reveal_strlit("sort=");
    reveal_strlit("page");
    reveal_strlit("1");
    reveal_strlit("sort");
    let query = match split_once(path_and_query, '?').1 {
        Some(x) => x,
        None => Seq::<char>::empty(),
    };
    let pieces = if query.len() == 0 { Seq::<Seq<char>>::empty() } else { split_all(query, '&') };
    let pairs = kept_pairs(pieces, "sort"@, "page"@);
    assert(kept_pairs(Seq::<Seq<char>>::empty(), "sort"@, "page"@) == Seq::<(Seq<char>, Seq<char>)>::empty());
    lemma_kept_pairs_text(pieces, "sort"@, "page"@);
    let with_page = pairs.push(("page"@, "1"@));
    let all = match next_sort_clause_spec(current_sort, column_key) {
        Some(next) => with_page.push(("sort"@, next.map_values(|c: char| if c == ' ' { '+' } else { c }))),
        None => with_page,
    };
    lemma_query_string_join(all);
    let mp = pairs.map_values(|p: (Seq<char>, Seq<char>)| kv_text(p));
    assert(kv_text(("page"@, "1"@)) =~= "page=1"@);
    match next_sort_clause_spec(current_sort, column_key) {
        Some(next) => {
            let n2 = next.map_values(|c: char| if c == ' ' { '+' } else { c });
            assert(kv_text(("sort"@, n2)) =~= "sort="@ + n2);
            assert(all.map_values(|p: (Seq<char>, Seq<char>)| kv_text(p)) =~= mp + seq!["page=1"@, "sort="@ + n2]);
        },
        None => {
            assert(all.map_values(|p: (Seq<char>, Seq<char>)| kv_text(p)) =~= mp + seq!["page=1"@]);
        },
    }
}

// ---------------------------------------------------------------------------
// Pagination window
// ---------------------------------------------------------------------------

/// With more than one page and the current page in range, the window is at
/// most five pages wide and holds the current page; the controls start with
/// a link to page 1, end with a link to the last page, and show the current
/// page as the active link.
pub proof fn law_pagination_window(path_and_query: Seq<char>, current: nat, num_pages: nat, push_url: bool)
    requires
        num_pages > 1,
        1 <= current <= num_pages,
    ensures
        window_start(current, num_pages) <= current <= window_end(current, num_pages),
        1 <= window_start(current, num_pages),
        window_end(current, num_pages) <= num_pages,
        window_end(current, num_pages) <= window_start(current, num_pages) + 4,
        pagination_pages_spec(path_and_query, current, num_pages, push_url).len() > 0,
        pagination_pages_spec(path_and_query, current, num_pages, push_url)[0] == page_link(
            path_and_query,
            1,
            current,
            push_url,
        ),
        pagination_pages_spec(path_and_query, current, num_pages, push_url).last() == page_link(
            path_and_query,
            num_pages,
            current,
            push_url,
        ),
        exists|i: int|
            0 <= i < pagination_pages_spec(path_and_query, current, num_pages, push_url).len()
                && #[trigger] pagination_pages_spec(path_and_query, current, num_pages, push_url)[i] == page_link(
                path_and_query,
                current,
                current,
                push_url,
            ),
{
    let start = window_start(current, num_pages);
    let end = window_end(current, num_pages);
    let es = pagination_pages_spec(path_and_query, current, num_pages, push_url);
    let head = if start > 1 {
        seq![page_link(path_and_query, 1, current, push_url), crate::table::ellipsis(push_url)]
    } else {
        seq![]
    };
    let window = Seq::new(
        (end + 1 - start) as nat,
        |i: int| page_link(path_and_query, (start + i) as nat, current, push_url),
    );
    let tail = if end < num_pages {
        seq![crate::table::ellipsis(push_url), page_link(path_and_query, num_pages, current, push_url)]
    } else {
        seq![]
    };
    assert(start <= current <= end);
    assert(es == head + window + tail);
    let k = current - start;
    assert(es[head.len() + k] == window[k]);
    assert(window[k] == page_link(path_and_query, current, current, push_url));
    if start == 1 {
        assert(es[0] == window[0]);
    }
    if end == num_pages {
        assert(es.last() == window.last());
    }
}

// ---------------------------------------------------------------------------
// Placeholder types
// ---------------------------------------------------------------------------

/// A plain placeholder named `id`, or whose name ends in `_id`, is an `i64`
/// by default; a splat is always a list of strings.
pub proof fn law_id_placeholders_are_integers(prefix: Seq<char>)
    ensures
        crate::paths::default_param_type_spec(seq!['i', 'd'], false) == crate::paths::ParamType::Int,
        crate::paths::default_param_type_spec(prefix + seq!['_', 'i', 'd'], false) == crate::paths::ParamType::Int,
        crate::paths::default_param_type_spec(prefix, true) == crate::paths::ParamType::Strings,
{
    let n = prefix + seq!['_', 'i', 'd'];
    assert(n.subrange(n.len() - 3, n.len() as int) =~= seq!['_', 'i', 'd']);
}

// ---------------------------------------------------------------------------
// Markdown emphasis
// ---------------------------------------------------------------------------

/// Outside an image, emphasis around a text renders as `<em class="italic">`,
/// the escaped text and `</em>`, and rendering goes on in the same state.
pub proof fn law_emphasis_is_italic(st: RenderState, t: String, rest: Seq<MdEvent>)
    requires
        !st.in_image,
    ensures
        render_from(
            st,
            seq![MdEvent::Start(MdTag::Emphasis), MdEvent::Text(t), MdEvent::End(MdTagEnd::Emphasis)] + rest,
        ) == "<em class=\"italic\">"@ + escape_text(t@) + "</em>"@ + render_from(st, rest),
{
    let es = seq![MdEvent::Start(MdTag::Emphasis), MdEvent::Text(t), MdEvent::End(MdTagEnd::Emphasis)] + rest;
    assert(es[0] == MdEvent::Start(MdTag::Emphasis));
    assert(es.drop_first()[0] == MdEvent::Text(t));
    assert(es.drop_first().drop_first()[0] == MdEvent::End(MdTagEnd::Emphasis));
    assert(es.drop_first().drop_first().drop_first() =~= rest);
    reveal_strlit("<em class=\"italic\">");
    reveal_strlit("<");
    reveal_strlit("em");
    reveal_strlit(" class=\"");
    reveal_strlit("italic");
    reveal_strlit("\">");
    assert(crate::markdown::open_tag("em"@, crate::markdown::EM@) =~= "<em class=\"italic\">"@);
    assert(render_from(st, es) == crate::markdown::open_tag("em"@, crate::markdown::EM@) + render_from(
        st,
        es.drop_first(),
    ));
    assert(render_from(st, es.drop_first()) == escape_text(t@) + render_from(st, es.drop_first().drop_first()));
    assert(render_from(st, es.drop_first().drop_first()) == "</em>"@ + render_from(st, rest));
}

// ---------------------------------------------------------------------------
// Page count
// ---------------------------------------------------------------------------

/// The page count is the ceiling of rows over page size: the last page is
/// not empty and no row lies past it (for counts that fit the 32-bit page
/// arithmetic without saturating); no rows is one (empty) page.
pub proof fn law_num_pages_ceiling(total: u64, page_size: u32)
    requires
        page_size >= 1,
        total + page_size <= 0x1_0000_0000,
    ensures
        total > 0 ==> (crate::table::num_pages_spec(total, page_size) - 1) * page_size < total,
        total <= crate::table::num_pages_spec(total, page_size) * page_size,
        total == 0 ==> crate::table::num_pages_spec(total, page_size) == 1,
{
    let ps = page_size as int;
    let t = total as int;
    assert(t % 0x1_0000_0000 == t);
    assert(crate::table::sat_add_u32(t, ps - 1) == t + ps - 1);
    let n = (t + ps - 1) / ps;
    assert(n * ps <= t + ps - 1 < n * ps + ps) by (nonlinear_arith)
        requires
            ps >= 1,
            t >= 0,
            n == (t + ps - 1) / ps,
    ;
    if t > 0 {
        assert(n >= 1) by (nonlinear_arith)
            requires
                ps >= 1,
                t >= 1,
                n * ps + ps > t + ps - 1,
        ;
        assert(crate::table::num_pages_spec(total, page_size) == n);
        assert((n - 1) * ps == n * ps - ps) by (nonlinear_arith);
    } else {
        assert(n == 0) by (nonlinear_arith)
            requires
                ps >= 1,
                n == (ps - 1) / ps,
        ;
        assert(crate::table::num_pages_spec(total, page_size) == 1);
    }
}

// ---------------------------------------------------------------------------
// App visibility
// ---------------------------------------------------------------------------

/// A superuser sees every app tile (and only app tiles), whatever the tiles'
/// roles and whatever role is asked about.
pub proof fn law_superuser_sees_every_app(apps: Seq<TileView>, role: Seq<char>)
    ensures
        visible_filter(apps, role, true) == apps.filter(|t: TileView| t.4 == PluginType::App),
        sort_by_name(visible_filter(apps, role, true)) == sort_by_name(
            apps.filter(|t: TileView| t.4 == PluginType::App),
        ),
    decreases apps.len(),
{
    reveal(Seq::filter);
    if apps.len() > 0 {
        law_superuser_sees_every_app(apps.drop_last(), role);
    }
}

/// Without superuser rights, an app tile is seen exactly when it names no
/// roles or names the asked role; other plugin types are never listed.
pub proof fn law_role_sees_allowed_apps(apps: Seq<TileView>, role: Seq<char>, t: TileView)
    ensures
        visible_filter(apps, role, false).contains(t) <==> (apps.contains(t) && t.4 == PluginType::App && (t.5.len()
            == 0 || t.5.contains(role))),
    decreases apps.len(),
{
    if apps.len() > 0 {
        law_role_sees_allowed_apps(apps.drop_last(), role, t);
        let rest = visible_filter(apps.drop_last(), role, false);
        assert(apps =~= apps.drop_last().push(apps.last()));
        if apps.contains(t) && !apps.drop_last().contains(t) {
            assert(t == apps.last()) by {
                let i = choose|i: int| 0 <= i < apps.len() && apps[i] == t;
                if i < apps.len() - 1 {
                    assert(apps.drop_last()[i] == t);
                }
            }
        }
        if apps.drop_last().contains(t) {
            let i = choose|i: int| 0 <= i < apps.drop_last().len() && apps.drop_last()[i] == t;
            assert(apps[i] == t);
        }
        if rest.contains(t) {
            let i = choose|i: int| 0 <= i < rest.len() && rest[i] == t;
            assert(rest.push(apps.last())[i] == t);
        }
        let r = visible_filter(apps, role, false);
        if r.contains(t) && !rest.contains(t) {
            let i = choose|i: int| 0 <= i < r.len() && r[i] == t;
            assert(r != rest);
            assert(r == rest.push(apps.last()));
            if i < rest.len() {
                assert(rest[i] == t);
            }
        }
        if crate::apps::tile_visible(apps.last(), role, false) {
            assert(r == rest.push(apps.last()));
            assert(r[rest.len() as int] == apps.last());
        }
    }
}

/// Outside an image, strong text renders as `<strong class="font-bold">`,
/// the escaped text and `</strong>`.
pub proof fn law_strong_is_bold(st: RenderState, t: String, rest: Seq<MdEvent>)
    requires
        !st.in_image,
    ensures
        render_from(
            st,
            seq![MdEvent::Start(MdTag::Strong), MdEvent::Text(t), MdEvent::End(MdTagEnd::Strong)] + rest,
        ) == "<strong class=\"font-bold\">"@ + escape_text(t@) + "</strong>"@ + render_from(st, rest),
{
    let es = seq![MdEvent::Start(MdTag::Strong), MdEvent::Text(t), MdEvent::End(MdTagEnd::Strong)] + rest;
    assert(es[0] == MdEvent::Start(MdTag::Strong));
    assert(es.drop_first()[0] == MdEvent::Text(t));
    assert(es.drop_first().drop_first()[0] == MdEvent::End(MdTagEnd::Strong));
    assert(es.drop_first().drop_first().drop_first() =~= rest);
    reveal_strlit("<strong class=\"font-bold\">");
    reveal_strlit("<");
    reveal_strlit("strong");
    reveal_strlit(" class=\"");
    reveal_strlit("font-bold");
    reveal_strlit("\">");
    assert(crate::markdown::open_tag("strong"@, crate::markdown::STRONG@) =~= "<strong class=\"font-bold\">"@);
    assert(render_from(st, es) == crate::markdown::open_tag("strong"@, crate::markdown::STRONG@) + render_from(
        st,
        es.drop_first(),
    ));
    assert(render_from(st, es.drop_first()) == escape_text(t@) + render_from(st, es.drop_first().drop_first()));
    assert(render_from(st, es.drop_first().drop_first()) == "</strong>"@ + render_from(st, rest));
}

} // verus!
