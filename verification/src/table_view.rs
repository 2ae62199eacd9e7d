//! Table views: the zebra list, the card grid, pagination controls, the data
//! table shell with its List/Grid toggle and column picker.
//!
//! Cells and slots arrive as already-rendered HTML; labels and titles are
//! HTML-escaped, attribute values attribute-escaped.

use vstd::prelude::*;

use crate::attrs::{insert_sorted, lookup, render_entries, HtmlAttrs};
use crate::html::{escape_html, icon, icon_spec, push_escaped_html};
use crate::json::{json_object, json_object_spec, json_str, json_string_of};
use crate::swap::{Attrs, SwapKey};
use crate::table::{
    col_visibility_attrs, col_visibility_spec, grid_base_class, grid_row_attrs, header_label_plain,
    header_label_plain_spec, TableColumnHeader, TablePagination, PaginationPage,
};
use crate::text::{decimal, escape_attr_seq, push_decimal, push_escaped_attr, push_str, to_owned};

verus! {

/// One table row: attributes of its `<tr>` and the HTML of its cells.
pub struct TableRow {
    pub attrs: HtmlAttrs,
    pub cells: Vec<String>,
}

/// The zebra list of a table.
pub struct TableListContent<'a> {
    pub headers: &'a [TableColumnHeader<'a>],
    pub rows: &'a [TableRow],
    /// HTMX target selector of the sort links.
    pub hx_target: &'a str,
}

/// `"true"` or `"false"`.
pub open spec fn bool_text(b: bool) -> Seq<char> {
    if b { "true"@ } else { "false"@ }
}

/// Classes of a sort link.
pub const SORT_LINK_CLASS: &'static str = "link link-hover link-neutral no-underline hover:underline cursor-pointer font-inherit text-inherit inline-flex items-center gap-1";

/// One header cell: a sort link when the column sorts, else the label.
pub open spec fn header_cell(h: TableColumnHeader, target: Seq<char>) -> Seq<char> {
    "<th class=\"whitespace-nowrap min-w-[100px]\""@ + col_visibility_spec(h.key@) + ">"@ + (match h.sort_url {
        Some(u) => "<a href=\""@ + escape_attr_seq(u@) + "\" hx-get=\""@ + escape_attr_seq(u@) + "\" hx-target=\""@
            + escape_attr_seq(target) + "\" hx-swap=\"outerMorph\" hx-push-url=\""@ + bool_text(h.push_url)
            + "\" class=\""@ + SORT_LINK_CLASS@ + "\">"@ + escape_html(h.label@) + "</a>"@,
        None => escape_html(h.label@),
    }) + "</th>"@
}

/// The header cells, in order.
pub open spec fn header_cells(hs: Seq<TableColumnHeader>, target: Seq<char>) -> Seq<char>
    decreases hs.len(),
{
    if hs.len() == 0 {
        seq![]
    } else {
        header_cells(hs.drop_last(), target) + header_cell(hs.last(), target)
    }
}

/// The column key of position `i` ("" past the last header).
pub open spec fn key_at(hs: Seq<TableColumnHeader>, i: int) -> Seq<char> {
    if 0 <= i < hs.len() { hs[i].key@ } else { seq![] }
}

/// The `<td>`s of a row.
pub open spec fn list_cells(hs: Seq<TableColumnHeader>, cells: Seq<String>) -> Seq<char>
    decreases cells.len(),
{
    if cells.len() == 0 {
        seq![]
    } else {
        list_cells(hs, cells.drop_last()) + "<td class=\"whitespace-nowrap truncate max-w-xs min-w-[100px]\""@
            + col_visibility_spec(key_at(hs, cells.len() - 1)) + ">"@ + cells.last()@ + "</td>"@
    }
}

/// The `<tr>`s of the rows.
pub open spec fn list_rows(hs: Seq<TableColumnHeader>, rows: Seq<TableRow>) -> Seq<char>
    decreases rows.len(),
{
    if rows.len() == 0 {
        seq![]
    } else {
        list_rows(hs, rows.drop_last()) + "<tr"@ + render_entries(rows.last().attrs@) + ">"@
            + list_cells(hs, rows.last().cells@) + "</tr>"@
    }
}

/// The HTML of a table list.
pub open spec fn table_list_spec(hs: Seq<TableColumnHeader>, rows: Seq<TableRow>, target: Seq<char>) -> Seq<char> {
    "<div class=\"table-container flex flex-col rounded-box border border-base-300 bg-base-100\"><div class=\"overflow-x-auto\"><table class=\"table table-zebra\"><thead><tr>"@
        + header_cells(hs, target) + "</tr></thead><tbody>"@ + (if rows.len() == 0 {
        "<tr><td colspan=\""@ + decimal(if hs.len() > 1 { hs.len() } else { 1 }) + "\" :colspan=\"visibleCount()\" class=\"text-center opacity-50 py-8\">"@
            + "Table is empty"@ + "</td></tr>"@
    } else {
        list_rows(hs, rows)
    }) + "</tbody></table></div></div>"@
}

/// Append one header cell.
fn push_header_cell(out: &mut String, h: &TableColumnHeader, target: &str)
    ensures
        final(out)@ == old(out)@ + header_cell(*h, target@),
{
    push_str(out, "<th class=\"whitespace-nowrap min-w-[100px]\"");
    let cv = col_visibility_attrs(h.key);
    push_str(out, cv.as_str());
    push_str(out, ">");
    match h.sort_url {
        Some(u) => {
            push_str(out, "<a href=\"");
            push_escaped_attr(out, u);
            push_str(out, "\" hx-get=\"");
            push_escaped_attr(out, u);
            push_str(out, "\" hx-target=\"");
            push_escaped_attr(out, target);
            push_str(out, "\" hx-swap=\"outerMorph\" hx-push-url=\"");
            push_str(out, if h.push_url { "true" } else { "false" });
            push_str(out, "\" class=\"");
            push_str(out, SORT_LINK_CLASS);
            push_str(out, "\">");
            push_escaped_html(out, h.label);
            push_str(out, "</a>");
        },
        None => push_escaped_html(out, h.label),
    }
    push_str(out, "</th>");
}

/// The key of header `i`, or "".
fn key_at_exec<'a>(hs: &[TableColumnHeader<'a>], i: usize) -> (r: &'a str)
    ensures
        r@ == key_at(hs@, i as int),
{
    proof {
        reveal_strlit("");
    }
    if i < hs.len() { hs[i].key } else { "" }
}

/// Append the `<td>`s of a row.
fn push_list_cells(out: &mut String, hs: &[TableColumnHeader], cells: &Vec<String>)
    ensures
        final(out)@ == old(out)@ + list_cells(hs@, cells@),
{
    let ghost start = out@;
    let mut i: usize = 0;
    while i < cells.len()
        invariant
            i <= cells.len(),
            out@ == start + list_cells(hs@, cells@.take(i as int)),
        decreases cells.len() - i,
    {
        push_str(out, "<td class=\"whitespace-nowrap truncate max-w-xs min-w-[100px]\"");
        let cv = col_visibility_attrs(key_at_exec(hs, i));
        push_str(out, cv.as_str());
        push_str(out, ">");
        push_str(out, cells[i].as_str());
        push_str(out, "</td>");
        assert(cells@.take(i + 1).drop_last() == cells@.take(i as int));
        assert(cells@.take(i + 1).last() == cells@[i as int]);
        i = i + 1;
    }
    assert(cells@.take(cells@.len() as int) == cells@);
}

/// Render a zebra table with sortable headers and an empty-state row.
pub fn table_list_content(opts: &TableListContent) -> (r: String)
    ensures
        r@ == table_list_spec(opts.headers@, opts.rows@, opts.hx_target@),
{
    let mut out = to_owned(
        "<div class=\"table-container flex flex-col rounded-box border border-base-300 bg-base-100\"><div class=\"overflow-x-auto\"><table class=\"table table-zebra\"><thead><tr>",
    );
    let ghost s0 = out@;
    let mut i: usize = 0;
    while i < opts.headers.len()
        invariant
            i <= opts.headers@.len(),
            out@ == s0 + header_cells(opts.headers@, opts.hx_target@).take(0) + header_cells(opts.headers@.take(i as int), opts.hx_target@),
        decreases opts.headers@.len() - i,
    {
        push_header_cell(&mut out, &opts.headers[i], opts.hx_target);
        assert(opts.headers@.take(i + 1).drop_last() == opts.headers@.take(i as int));
        assert(opts.headers@.take(i + 1).last() == opts.headers@[i as int]);
        i = i + 1;
    }
    assert(opts.headers@.take(opts.headers@.len() as int) == opts.headers@);
    push_str(&mut out, "</tr></thead><tbody>");
    let ghost s1 = out@;
    if opts.rows.len() == 0 {
        let span: u64 = if opts.headers.len() > 1 { opts.headers.len() as u64 } else { 1 };
        push_str(&mut out, "<tr><td colspan=\"");
        push_decimal(&mut out, span);
        push_str(&mut out, "\" :colspan=\"visibleCount()\" class=\"text-center opacity-50 py-8\">");
        push_str(&mut out, "Table is empty");
        push_str(&mut out, "</td></tr>");
    } else {
        let mut k: usize = 0;
        while k < opts.rows.len()
            invariant
                k <= opts.rows@.len(),
                out@ == s1 + list_rows(opts.headers@, opts.rows@.take(k as int)),
            decreases opts.rows@.len() - k,
        {
            let row = &opts.rows[k];
            push_str(&mut out, "<tr");
            let a = row.attrs.as_string();
            push_str(&mut out, a.as_str());
            push_str(&mut out, ">");
            push_list_cells(&mut out, opts.headers, &row.cells);
            push_str(&mut out, "</tr>");
            assert(opts.rows@.take(k + 1).drop_last() == opts.rows@.take(k as int));
            assert(opts.rows@.take(k + 1).last() == *row);
            k = k + 1;
        }
        assert(opts.rows@.take(opts.rows@.len() as int) == opts.rows@);
    }
    push_str(&mut out, "</tbody></table></div></div>");
    out
}

/// The attributes of a grid card: the row's, with the card classes.
pub open spec fn grid_card_attrs(a: Attrs) -> Attrs {
    insert_sorted(
        a,
        "class"@,
        if lookup(a, ":class"@) is Some { grid_base_class() } else { grid_base_class() + " hover:bg-base-200"@ },
    )
}

/// The labeled fields of a card, from position 1 on.
pub open spec fn grid_fields(hs: Seq<TableColumnHeader>, cells: Seq<String>) -> Seq<char>
    decreases cells.len(),
{
    if cells.len() <= 1 {
        seq![]
    } else {
        grid_fields(hs, cells.drop_last()) + grid_field(hs, cells.len() - 1, cells.last()@)
    }
}

/// The labeled field `i` of a card.
pub open spec fn grid_field(hs: Seq<TableColumnHeader>, i: int, cell: Seq<char>) -> Seq<char> {
    "<div class=\"text-sm flex gap-2 truncate\""@ + col_visibility_spec(key_at(hs, i)) + ">"@ + (if 0 <= i < hs.len()
        && hs[i].label@.len() > 0 {
        "<span class=\"font-semibold text-primary\">"@ + escape_html(hs[i].label@) + "</span>"@
    } else {
        seq![]
    }) + "<span>"@ + cell + "</span>"@ + "</div>"@
}

/// Append labeled field `i` of a card.
fn push_grid_field(out: &mut String, hs: &[TableColumnHeader], i: usize, cell: &str)
    ensures
        final(out)@ == old(out)@ + grid_field(hs@, i as int, cell@),
{
    push_str(out, "<div class=\"text-sm flex gap-2 truncate\"");
    let cv = col_visibility_attrs(key_at_exec(hs, i));
    push_str(out, cv.as_str());
    push_str(out, ">");
    let ghost m2 = out@;
    if i < hs.len() && !hs[i].label.is_empty() {
        push_str(out, "<span class=\"font-semibold text-primary\">");
        push_escaped_html(out, hs[i].label);
        push_str(out, "</span>");
    } else {
        assert(m2 + Seq::<char>::empty() == m2);
    }
    push_str(out, "<span>");
    push_str(out, cell);
    push_str(out, "</span>");
    push_str(out, "</div>");
}

/// One grid card.
pub open spec fn grid_card(hs: Seq<TableColumnHeader>, row: TableRow) -> Seq<char> {
    "<div"@ + render_entries(grid_card_attrs(row.attrs@)) + ">"@ + (if row.cells@.len() > 0 {
        "<div class=\"font-semibold text-md truncate\""@ + col_visibility_spec(key_at(hs, 0)) + ">"@ + row.cells@[0]@
            + "</div>"@
    } else {
        seq![]
    }) + grid_fields(hs, row.cells@) + "</div>"@
}

/// The grid cards.
pub open spec fn grid_cards(hs: Seq<TableColumnHeader>, rows: Seq<TableRow>) -> Seq<char>
    decreases rows.len(),
{
    if rows.len() == 0 {
        seq![]
    } else {
        grid_cards(hs, rows.drop_last()) + grid_card(hs, rows.last())
    }
}

/// The HTML of a card grid.
pub open spec fn table_grid_spec(hs: Seq<TableColumnHeader>, rows: Seq<TableRow>) -> Seq<char> {
    "<div class=\"flex flex-col gap-4 @container\"><div class=\"overflow-x-auto\"><div class=\"grid grid-cols-1 @md:grid-cols-2 @2xl:grid-cols-3 @3xl:grid-cols-4 gap-2\">"@
        + (if rows.len() == 0 {
        "<div class=\"col-span-full text-center opacity-50 py-8\">Table is empty</div>"@
    } else {
        grid_cards(hs, rows)
    }) + "</div></div></div>"@
}

/// Append one grid card.
fn push_grid_card(out: &mut String, hs: &[TableColumnHeader], row: &TableRow)
    ensures
        final(out)@ == old(out)@ + grid_card(hs@, *row),
{
    push_str(out, "<div");
    let ga = grid_row_attrs(&row.attrs);
    let a = ga.as_string();
    push_str(out, a.as_str());
    push_str(out, ">");
    let ghost m0 = out@;
    if row.cells.len() > 0 {
        push_str(out, "<div class=\"font-semibold text-md truncate\"");
        let cv = col_visibility_attrs(key_at_exec(hs, 0));
        push_str(out, cv.as_str());
        push_str(out, ">");
        push_str(out, row.cells[0].as_str());
        push_str(out, "</div>");
    } else {
        assert(m0 + Seq::<char>::empty() == m0);
    }
    let ghost m1 = out@;
    let cells = &row.cells;
    if cells.len() > 1 {
        let mut i: usize = 1;
        assert(cells@.take(1).len() == 1);
        assert(grid_fields(hs@, cells@.take(1)) == Seq::<char>::empty());
        assert(m1 + Seq::<char>::empty() == m1);
        while i < cells.len()
            invariant
                1 <= i <= cells.len(),
                out@ == m1 + grid_fields(hs@, cells@.take(i as int)),
            decreases cells.len() - i,
        {
            push_grid_field(out, hs, i, cells[i].as_str());
            assert(cells@.take(i + 1).drop_last() == cells@.take(i as int));
            assert(cells@.take(i + 1).last() == cells@[i as int]);
            i = i + 1;
        }
        assert(cells@.take(cells@.len() as int) == cells@);
    } else {
        assert(grid_fields(hs@, cells@) == Seq::<char>::empty());
        assert(m1 + Seq::<char>::empty() == m1);
    }
    push_str(out, "</div>");
}

/// Render a responsive card grid (first cell the title, the rest labeled fields).
pub fn table_grid_content(headers: &[TableColumnHeader], rows: &[TableRow]) -> (r: String)
    ensures
        r@ == table_grid_spec(headers@, rows@),
{
    let mut out = to_owned(
        "<div class=\"flex flex-col gap-4 @container\"><div class=\"overflow-x-auto\"><div class=\"grid grid-cols-1 @md:grid-cols-2 @2xl:grid-cols-3 @3xl:grid-cols-4 gap-2\">",
    );
    let ghost s0 = out@;
    if rows.len() == 0 {
        push_str(&mut out, "<div class=\"col-span-full text-center opacity-50 py-8\">Table is empty</div>");
    } else {
        let mut k: usize = 0;
        while k < rows.len()
            invariant
                k <= rows@.len(),
                out@ == s0 + grid_cards(headers@, rows@.take(k as int)),
            decreases rows@.len() - k,
        {
            push_grid_card(&mut out, headers, &rows[k]);
            assert(rows@.take(k + 1).drop_last() == rows@.take(k as int));
            assert(rows@.take(k + 1).last() == rows@[k as int]);
            k = k + 1;
        }
        assert(rows@.take(rows@.len() as int) == rows@);
    }
    push_str(&mut out, "</div></div></div>");
    out
}

/// One pagination control.
pub open spec fn page_control(p: PaginationPage, target: Seq<char>, swap: Seq<char>) -> Seq<char> {
    if p.ellipsis {
        "<button disabled class=\"join-item btn btn-sm\">...</button>"@
    } else {
        page_link(p, target, swap)
    }
}

/// The classes of a page link.
pub open spec fn page_class(active: bool) -> Seq<char> {
    "join-item btn btn-sm"@ + (if active { " btn-active"@ } else { seq![] })
}

/// A page link.
pub open spec fn page_link(p: PaginationPage, target: Seq<char>, swap: Seq<char>) -> Seq<char> {
    "<a href=\""@ + escape_attr_seq(p.url@) + "\" hx-get=\""@ + escape_attr_seq(p.url@) + "\" hx-target=\""@
        + escape_attr_seq(target) + "\" hx-swap=\""@ + escape_attr_seq(swap) + "\" hx-push-url=\""@
        + bool_text(p.push_url) + "\" class=\""@ + escape_attr_seq(page_class(p.active)) + "\">"@
        + escape_html(p.label@) + "</a>"@
}

/// The classes of a page link.
fn page_class_exec(active: bool) -> (r: String)
    ensures
        r@ == page_class(active),
{
    let mut class = to_owned("join-item btn btn-sm");
    if active {
        push_str(&mut class, " btn-active");
    } else {
        assert("join-item btn btn-sm"@ + Seq::<char>::empty() == "join-item btn btn-sm"@);
    }
    class
}

/// Append a page link.
fn push_page_link(out: &mut String, p: &PaginationPage, target: &str, swap: &str)
    ensures
        final(out)@ == old(out)@ + page_link(*p, target@, swap@),
{
    let class = page_class_exec(p.active);
    push_str(out, "<a href=\"");
    push_escaped_attr(out, p.url);
    push_str(out, "\" hx-get=\"");
    push_escaped_attr(out, p.url);
    push_str(out, "\" hx-target=\"");
    push_escaped_attr(out, target);
    push_str(out, "\" hx-swap=\"");
    push_escaped_attr(out, swap);
    push_str(out, "\" hx-push-url=\"");
    push_str(out, if p.push_url { "true" } else { "false" });
    push_str(out, "\" class=\"");
    push_escaped_attr(out, class.as_str());
    push_str(out, "\">");
    push_escaped_html(out, p.label);
    push_str(out, "</a>");
}

/// The pagination controls, in order.
pub open spec fn page_controls(ps: Seq<PaginationPage>, target: Seq<char>, swap: Seq<char>) -> Seq<char>
    decreases ps.len(),
{
    if ps.len() == 0 {
        seq![]
    } else {
        page_controls(ps.drop_last(), target, swap) + page_control(ps.last(), target, swap)
    }
}

/// The HTML of pagination with a given swap style (nothing without pages).
pub open spec fn pagination_spec(ps: Seq<PaginationPage>, target: Seq<char>, swap: Seq<char>) -> Seq<char> {
    if ps.len() == 0 {
        seq![]
    } else {
        "<div class=\"flex flex-col justify-center items-center gap-2 p-4\"><div class=\"join\">"@
            + page_controls(ps, target, swap) + "</div></div>"@
    }
}

/// Append one pagination control.
fn push_page_control(out: &mut String, p: &PaginationPage, target: &str, swap: &str)
    ensures
        final(out)@ == old(out)@ + page_control(*p, target@, swap@),
{
    if p.ellipsis {
        push_str(out, "<button disabled class=\"join-item btn btn-sm\">...</button>");
    } else {
        push_page_link(out, p, target, swap);
    }
}

/// Render pagination controls with the given swap style.
pub fn table_pagination_with_swap(opts: &TablePagination, swap: &str) -> (r: String)
    ensures
        r@ == pagination_spec(opts.pages@, opts.hx_target@, swap@),
{
    if opts.pages.len() == 0 {
        return String::new();
    }
    let mut out = to_owned("<div class=\"flex flex-col justify-center items-center gap-2 p-4\"><div class=\"join\">");
    let ghost s0 = out@;
    let mut i: usize = 0;
    while i < opts.pages.len()
        invariant
            i <= opts.pages@.len(),
            out@ == s0 + page_controls(opts.pages@.take(i as int), opts.hx_target@, swap@),
        decreases opts.pages@.len() - i,
    {
        push_page_control(&mut out, &opts.pages[i], opts.hx_target, swap);
        assert(opts.pages@.take(i + 1).drop_last() == opts.pages@.take(i as int));
        assert(opts.pages@.take(i + 1).last() == opts.pages@[i as int]);
        i = i + 1;
    }
    assert(opts.pages@.take(opts.pages@.len() as int) == opts.pages@);
    push_str(&mut out, "</div></div>");
    out
}

/// Pagination controls targeting a swap region (`outerMorph`).
pub fn table_pagination(opts: &TablePagination) -> (r: String)
    ensures
        r@ == pagination_spec(opts.pages@, opts.hx_target@, "outerMorph"@),
{
    table_pagination_with_swap(opts, "outerMorph")
}

/// Pagination for picker modals, which swap the whole dialog (`outerHTML`).
pub fn table_pagination_picker(opts: &TablePagination) -> (r: String)
    ensures
        r@ == pagination_spec(opts.pages@, opts.hx_target@, "outerHTML"@),
{
    table_pagination_with_swap(opts, "outerHTML")
}

/// Piece 0 of the Alpine component of a data table.
pub const TABLE_JS_0: &'static str = "{\n            view: $persist(";

/// Between the initial view and its storage key.
pub const TABLE_JS_VIEW_AS: &'static str = ").as(";

/// Between the view's storage key and the sort's storage key.
pub const TABLE_JS_SORT: &'static str = "),\n            sort: $persist('').as(";

/// Piece 1 of the Alpine component of a data table.
pub const TABLE_JS_1: &'static str = "),\n            tableId: ";

/// Piece 2 of the Alpine component of a data table.
pub const TABLE_JS_2: &'static str = ",\n            defaults: ";

/// Piece 3 of the Alpine component of a data table.
pub const TABLE_JS_3: &'static str = ",\n            cols: ";

/// Piece 4 of the Alpine component of a data table.
pub const TABLE_JS_4: &'static str = ",\n            init() {\n                this.load();\n                var self = this;\n                this.$el.addEventListener('click', function(e) {\n                    var a = e.target && e.target.closest ? e.target.closest('thead a[href]') : null;\n                    if (a) self.persistSortFromHref(a.getAttribute('href'));\n                });\n                this.restoreSort();\n            },\n            persistSortFromHref(href) {\n                try {\n                    var u = new URL(href, window.location.href);\n                    this.sort = u.searchParams.get('sort') || '';\n                } catch (e) {}\n            },\n            restoreSort() {\n                if (!this.sort || !window.htmx) return;\n                var u = new URL(window.location.href);\n                if (u.searchParams.has('sort')) {\n                    this.sort = u.searchParams.get('sort') || '';\n                    return;\n                }\n                u.searchParams.set('sort', this.sort);\n                u.searchParams.set('page', '1');\n                window.htmx.ajax('GET', u.pathname + u.search, { target: this.$el, swap: 'outerHTML' });\n            },\n            load() {\n                try {\n                    var raw = localStorage.getItem('lariv.table.cols.' + this.tableId);\n                    var saved = raw ? JSON.parse(raw) : {};\n                    var next = Object.assign({}, this.defaults);\n                    Object.keys(this.defaults).forEach(function(k) {\n                        if (typeof saved[k] === 'boolean') next[k] = saved[k];\n                    });\n                    if (!Object.keys(next).some(function(k) { return next[k]; })) {\n                        next = Object.assign({}, this.defaults);\n                    }\n                    this.cols = next;\n                } catch (e) {\n                    this.cols = Object.assign({}, this.defaults);\n                }\n            },\n            save() {\n                localStorage.setItem('lariv.table.cols.' + this.tableId, JSON.stringify(this.cols));\n            },\n            isVisible(key) {\n                return this.cols[key] !== false;\n            },\n            visibleCount() {\n                var self = this;\n                var n = Object.keys(this.defaults).filter(function(k) { return self.isVisible(k); }).length;\n                return n > 0 ? n : 1;\n            },\n            toggle(key) {\n                if (this.isVisible(key) && this.visibleCount() <= 1) return;\n                this.cols[key] = !this.isVisible(key);\n                this.save();\n            },\n            resetCols() {\n                this.cols = Object.assign({}, this.defaults);\n                this.save();\n            }\n        }";


// ---------------------------------------------------------------------------
// Toolbar buttons
// ---------------------------------------------------------------------------

/// Default classes of a toolbar dropdown panel.
pub const TABLE_BUTTON_FILTER_DEFAULT_CONTENT: &'static str = "card w-64 my-1.5 card-body shadow dropdown-content border border-base-300 rounded-box z-2 bg-base-100";

/// Filter dropdown around an already-rendered form panel.
pub struct TableButtonFilter {
    pub panel: String,
    pub content_classes: String,
}

impl Default for TableButtonFilter {
    fn default() -> (r: Self)
        ensures
            r.panel@ == ""@,
            r.content_classes@ == TABLE_BUTTON_FILTER_DEFAULT_CONTENT@,
    {
        proof {
            reveal_strlit("");
        }
        TableButtonFilter { panel: String::new(), content_classes: to_owned(TABLE_BUTTON_FILTER_DEFAULT_CONTENT) }
    }
}

/// Opening of the filter dropdown.
pub const FILTER_DETAILS_OPEN: &'static str = "<details class=\"dropdown dropdown-end\" @click.outside=\"if(!$event.target.closest('.fk-modal-container')){$el.removeAttribute('open')}\">";

/// The HTML of a filter dropdown (empty classes fall back to the default panel).
pub open spec fn table_button_filter_spec(panel: Seq<char>, content_classes: Seq<char>) -> Seq<char> {
    FILTER_DETAILS_OPEN@ + "<summary class=\"btn btn-square dropdown-toggle btn-primary btn-sm\">"@
        + icon_spec("funnel"@, ""@, Seq::empty()) + "</summary>"@ + "<div class=\""@ + escape_html(
        if content_classes.len() == 0 { TABLE_BUTTON_FILTER_DEFAULT_CONTENT@ } else { content_classes },
    ) + "\">"@ + panel + "</div>"@ + "</details>"@
}

/// Render a funnel-icon filter dropdown.
pub fn table_button_filter(opts: &TableButtonFilter) -> (r: String)
    ensures
        r@ == table_button_filter_spec(opts.panel@, opts.content_classes@),
{
    let content = if opts.content_classes.as_str().is_empty() { TABLE_BUTTON_FILTER_DEFAULT_CONTENT } else { opts.content_classes.as_str() };
    let mut out = to_owned(FILTER_DETAILS_OPEN);
    push_str(&mut out, "<summary class=\"btn btn-square dropdown-toggle btn-primary btn-sm\">");
    let i = icon("funnel", "");
    push_str(&mut out, i.as_str());
    push_str(&mut out, "</summary>");
    push_str(&mut out, "<div class=\"");
    push_escaped_html(&mut out, content);
    push_str(&mut out, "\">");
    push_str(&mut out, opts.panel.as_str());
    push_str(&mut out, "</div>");
    push_str(&mut out, "</details>");
    out
}

/// One entry of the column picker (none for a column without a key).
pub open spec fn column_toggle(h: TableColumnHeader) -> Seq<char> {
    if h.key@.len() == 0 {
        seq![]
    } else {
        "<label class=\"label cursor-pointer justify-start gap-2 py-1\">"@
            + "<input type=\"checkbox\" class=\"checkbox checkbox-sm\" :checked=\"isVisible('"@ + escape_attr_seq(h.key@)
            + "')\" @change=\"toggle('"@ + escape_attr_seq(h.key@) + "')\">"@ + "<span class=\"label-text\">"@
            + escape_html(header_label_plain_spec(h.label@)) + "</span>"@ + "</label>"@
    }
}

/// The column picker entries.
pub open spec fn column_toggles(hs: Seq<TableColumnHeader>) -> Seq<char>
    decreases hs.len(),
{
    if hs.len() == 0 {
        seq![]
    } else {
        column_toggles(hs.drop_last()) + column_toggle(hs.last())
    }
}

/// The HTML of the column visibility picker.
pub open spec fn table_button_columns_spec(hs: Seq<TableColumnHeader>) -> Seq<char> {
    "<details class=\"dropdown dropdown-end\" @click.outside=\"$el.removeAttribute('open')\">"@
        + "<summary class=\"btn btn-square dropdown-toggle btn-outline btn-sm\">"@ + icon_spec("view-columns"@, ""@, Seq::empty())
        + "</summary>"@ + "<div class=\""@ + escape_html(TABLE_BUTTON_FILTER_DEFAULT_CONTENT@) + "\">"@
        + "<div class=\"font-semibold text-sm mb-2\">Columns</div>"@ + "<div class=\"flex flex-col gap-1\">"@
        + column_toggles(hs) + "</div>"@
        + "<button type=\"button\" class=\"btn btn-ghost btn-xs mt-2\" @click=\"resetCols()\">Reset</button>"@
        + "</div>"@ + "</details>"@
}

/// Append one column picker entry.
fn push_column_toggle(out: &mut String, h: &TableColumnHeader)
    ensures
        final(out)@ == old(out)@ + column_toggle(*h),
{
    if h.key.is_empty() {
        assert(old(out)@ + Seq::<char>::empty() == old(out)@);
        return;
    }
    push_str(out, "<label class=\"label cursor-pointer justify-start gap-2 py-1\">");
    push_str(out, "<input type=\"checkbox\" class=\"checkbox checkbox-sm\" :checked=\"isVisible('");
    push_escaped_attr(out, h.key);
    push_str(out, "')\" @change=\"toggle('");
    push_escaped_attr(out, h.key);
    push_str(out, "')\">");
    push_str(out, "<span class=\"label-text\">");
    let plain = header_label_plain(h.label);
    push_escaped_html(out, plain.as_str());
    push_str(out, "</span>");
    push_str(out, "</label>");
}

/// Render the column visibility picker bound to the table's Alpine state.
pub fn table_button_columns(headers: &[TableColumnHeader]) -> (r: String)
    ensures
        r@ == table_button_columns_spec(headers@),
{
    let mut out = to_owned("<details class=\"dropdown dropdown-end\" @click.outside=\"$el.removeAttribute('open')\">");
    push_str(&mut out, "<summary class=\"btn btn-square dropdown-toggle btn-outline btn-sm\">");
    let i = icon("view-columns", "");
    push_str(&mut out, i.as_str());
    push_str(&mut out, "</summary>");
    push_str(&mut out, "<div class=\"");
    push_escaped_html(&mut out, TABLE_BUTTON_FILTER_DEFAULT_CONTENT);
    push_str(&mut out, "\">");
    push_str(&mut out, "<div class=\"font-semibold text-sm mb-2\">Columns</div>");
    push_str(&mut out, "<div class=\"flex flex-col gap-1\">");
    let ghost s0 = out@;
    let mut k: usize = 0;
    while k < headers.len()
        invariant
            k <= headers@.len(),
            out@ == s0 + column_toggles(headers@.take(k as int)),
        decreases headers@.len() - k,
    {
        push_column_toggle(&mut out, &headers[k]);
        assert(headers@.take(k + 1).drop_last() == headers@.take(k as int));
        assert(headers@.take(k + 1).last() == headers@[k as int]);
        k = k + 1;
    }
    assert(headers@.take(headers@.len() as int) == headers@);
    push_str(&mut out, "</div>");
    push_str(&mut out, "<button type=\"button\" class=\"btn btn-ghost btn-xs mt-2\" @click=\"resetCols()\">Reset</button>");
    push_str(&mut out, "</div>");
    push_str(&mut out, "</details>");
    out
}

/// Render a create control that opens a modal form.
pub fn table_button_create(opts: &crate::table::TableButtonCreate) -> (r: String)
    ensures
        r@ == crate::button::modal_button_spec(
            "fk-modal-host"@,
            opts.label@,
            crate::button::with_name_query(opts.href@, opts.name@),
            opts.icon_name,
            opts.classes@,
            Seq::empty(),
        ),
{
    crate::button::button_modal_form(&crate::button::ButtonModalForm {
        label: opts.label,
        href: opts.href,
        name: opts.name,
        form_post_url: opts.form_post_url,
        modal_uid: opts.modal_uid,
        icon_name: opts.icon_name,
        classes: opts.classes,
        attrs: HtmlAttrs::new(),
    })
}

// ---------------------------------------------------------------------------
// Data table shell
// ---------------------------------------------------------------------------

/// A named view (List or Grid) inside a data table.
pub struct DataTableDisplay {
    pub name: String,
    pub html: String,
}

impl View for DataTableDisplay {
    type V = (Seq<char>, Seq<char>);

    open spec fn view(&self) -> (Seq<char>, Seq<char>) {
        (self.name@, self.html@)
    }
}

/// The displays as `(name, html)` values.
pub open spec fn displays_view(ds: Seq<DataTableDisplay>) -> Seq<(Seq<char>, Seq<char>)> {
    ds.map_values(|d: DataTableDisplay| d@)
}

/// The keys as character sequences.
pub open spec fn keys_view(keys: Seq<&str>) -> Seq<Seq<char>> {
    keys.map_values(|k: &str| k@)
}

/// A data table: title, view toggle, actions, views and pagination.
pub struct DataTable<'a> {
    pub uid: &'a str,
    pub title: &'a str,
    pub subtitle: &'a str,
    pub classes: &'a str,
    pub actions: String,
    pub displays: Vec<DataTableDisplay>,
    pub default_view: &'a str,
    pub pagination: String,
    /// Mark the root for an out-of-band swap.
    pub oob: bool,
    /// Re-GET this URL on `lariv-table-refresh-{uid}` (after a create modal succeeds).
    pub refresh_url: &'a str,
    /// Column keys whose visibility the client remembers.
    pub column_keys: &'a [&'a str],
}

impl Default for DataTable<'_> {
    fn default() -> (r: Self)
        ensures
            r.uid@ == "table-container"@,
            r.title@ == ""@,
            r.subtitle@ == ""@,
            r.classes@ == ""@,
            r.actions@ == ""@,
            r.displays@.len() == 0,
            r.default_view@ == "List"@,
            r.pagination@ == ""@,
            !r.oob,
            r.refresh_url@ == ""@,
            r.column_keys@.len() == 0,
    {
        proof {
            reveal_strlit("");
        }
        DataTable {
            uid: "table-container",
            title: "",
            subtitle: "",
            classes: "",
            actions: String::new(),
            displays: Vec::new(),
            default_view: "List",
            pagination: String::new(),
            oob: false,
            refresh_url: "",
            column_keys: &[],
        }
    }
}

/// `keys` with empty ones left out, each set to `true` (a sorted set).
pub open spec fn column_defaults(keys: Seq<Seq<char>>) -> Attrs
    decreases keys.len(),
{
    if keys.len() == 0 {
        seq![]
    } else if keys.last().len() == 0 {
        column_defaults(keys.drop_last())
    } else {
        insert_sorted(column_defaults(keys.drop_last()), keys.last(), "true"@)
    }
}

/// The local-storage key under which table `table_id` keeps its view.
pub open spec fn view_store_key(table_id: Seq<char>) -> Seq<char> {
    "lariv.table."@ + table_id + ".view"@
}

/// The local-storage key under which table `table_id` keeps its sort.
pub open spec fn sort_store_key(table_id: Seq<char>) -> Seq<char> {
    "lariv.table."@ + table_id + ".sort"@
}

/// The Alpine component of a data table: the view and the sort kept in local
/// storage per table (`$persist`), the id and the column visibility defaults.
pub open spec fn table_x_data_spec(view: Seq<char>, table_id: Seq<char>, keys: Seq<Seq<char>>) -> Seq<char> {
    let d = json_object_spec(column_defaults(keys));
    TABLE_JS_0@ + json_string_of(view) + TABLE_JS_VIEW_AS@ + json_string_of(view_store_key(table_id)) + TABLE_JS_SORT@
        + json_string_of(sort_store_key(table_id)) + TABLE_JS_1@ + json_string_of(table_id) + TABLE_JS_2@ + d
        + TABLE_JS_3@ + d + TABLE_JS_4@
}

/// Build the Alpine component of a data table.
fn data_table_x_data(view: &str, table_id: &str, column_keys: &[&str]) -> (r: String)
    ensures
        r@ == table_x_data_spec(view@, table_id@, keys_view(column_keys@)),
{
    let mut defaults = HtmlAttrs::new();
    let mut k: usize = 0;
    while k < column_keys.len()
        invariant
            k <= column_keys@.len(),
            defaults@ == column_defaults(keys_view(column_keys@.take(k as int))),
        decreases column_keys@.len() - k,
    {
        assert(keys_view(column_keys@.take(k + 1)).drop_last() == keys_view(column_keys@.take(k as int)));
        assert(keys_view(column_keys@.take(k + 1)).last() == column_keys@[k as int]@);
        if !column_keys[k].is_empty() {
            defaults = defaults.set(column_keys[k], "true");
        }
        k = k + 1;
    }
    assert(column_keys@.take(column_keys@.len() as int) == column_keys@);
    let d = json_object(&defaults);
    let vj = json_str(view);
    let ij = json_str(table_id);
    let mut vk = to_owned("lariv.table.");
    push_str(&mut vk, table_id);
    push_str(&mut vk, ".view");
    let mut sk = to_owned("lariv.table.");
    push_str(&mut sk, table_id);
    push_str(&mut sk, ".sort");
    let vkj = json_str(vk.as_str());
    let skj = json_str(sk.as_str());
    let mut out = to_owned(TABLE_JS_0);
    push_str(&mut out, vj.as_str());
    push_str(&mut out, TABLE_JS_VIEW_AS);
    push_str(&mut out, vkj.as_str());
    push_str(&mut out, TABLE_JS_SORT);
    push_str(&mut out, skj.as_str());
    push_str(&mut out, TABLE_JS_1);
    push_str(&mut out, ij.as_str());
    push_str(&mut out, TABLE_JS_2);
    push_str(&mut out, d.as_str());
    push_str(&mut out, TABLE_JS_3);
    push_str(&mut out, d.as_str());
    push_str(&mut out, TABLE_JS_4);
    out
}

/// Some display is named `name`.
pub open spec fn has_display(ds: Seq<(Seq<char>, Seq<char>)>, name: Seq<char>) -> bool {
    exists|i: int| 0 <= i < ds.len() && ds[i].0 == name
}

/// The view shown first: the default when a display has that name, else the
/// first display's, else `List`.
pub open spec fn initial_view(ds: Seq<(Seq<char>, Seq<char>)>, default_view: Seq<char>) -> Seq<char> {
    if has_display(ds, default_view) {
        default_view
    } else if ds.len() > 0 {
        ds[0].0
    } else {
        "List"@
    }
}

/// The view select options.
pub open spec fn view_options(ds: Seq<(Seq<char>, Seq<char>)>) -> Seq<char>
    decreases ds.len(),
{
    if ds.len() == 0 {
        seq![]
    } else {
        view_options(ds.drop_last()) + "<option value=\""@ + escape_html(ds.last().0) + "\">"@
            + escape_html(ds.last().0) + "</option>"@
    }
}

/// The view panes (the initial one visible before Alpine starts).
pub open spec fn view_panes(ds: Seq<(Seq<char>, Seq<char>)>, initial: Seq<char>) -> Seq<char>
    decreases ds.len(),
{
    if ds.len() == 0 {
        seq![]
    } else {
        view_panes(ds.drop_last(), initial) + "<div :class=\"{ 'hidden': view !== '"@ + escape_attr_seq(ds.last().0)
            + "' }\" class=\""@ + (if ds.last().0 == initial { seq![] } else { "hidden"@ }) + "\">"@
            + ds.last().1 + "</div>"@
    }
}

/// The refresh attributes of table `uid`'s root (none without a URL): it
/// re-fetches `url` when the document hears `lariv-table-refresh-{uid}`.
pub open spec fn refresh_attrs_spec(uid: Seq<char>, url: Seq<char>) -> Seq<char> {
    if url.len() == 0 {
        seq![]
    } else {
        " hx-get=\""@ + escape_attr_seq(url) + "\" hx-trigger=\"lariv-table-refresh-"@ + escape_attr_seq(uid)
            + " from:document\" hx-target=\"this\" hx-swap=\"outerMorph\" hx-push-url=\"false\""@
    }
}

/// The opening `<div>` of a data table.
pub open spec fn table_root_spec(uid: Seq<char>, classes: Seq<char>, x_data: Seq<char>, oob: bool, refresh: Seq<char>) -> Seq<char> {
    "<div id=\""@ + escape_attr_seq(uid) + "\" class=\"w-full data-table-container "@ + escape_attr_seq(classes)
        + "\" x-data=\""@ + escape_attr_seq(x_data) + "\""@ + (if oob { " hx-swap-oob=\"true\""@ } else { seq![] })
        + refresh_attrs_spec(uid, refresh) + ">"@
}

/// The title row of a data table.
pub open spec fn table_header_spec(title: Seq<char>, subtitle: Seq<char>, ds: Seq<(Seq<char>, Seq<char>)>, actions: Seq<char>) -> Seq<char> {
    "<div class=\"flex justify-between items-center my-2\"><div>"@ + (if title.len() > 0 {
        "<div class=\"text-xl font-semibold\">"@ + escape_html(title) + "</div>"@
    } else {
        seq![]
    }) + (if subtitle.len() > 0 {
        "<div class=\"text-sm text-gray-500\">"@ + escape_html(subtitle) + "</div>"@
    } else {
        seq![]
    }) + "</div><div class=\"flex items-center gap-2\">"@ + (if ds.len() > 1 {
        "<select class=\"select select-md\" x-model=\"view\">"@ + view_options(ds) + "</select>"@
    } else {
        seq![]
    }) + actions + "</div></div>"@
}

/// The HTML of a data table.
pub open spec fn data_table_spec(
    uid: Seq<char>,
    title: Seq<char>,
    subtitle: Seq<char>,
    classes: Seq<char>,
    actions: Seq<char>,
    ds: Seq<(Seq<char>, Seq<char>)>,
    default_view: Seq<char>,
    pagination: Seq<char>,
    oob: bool,
    refresh_url: Seq<char>,
    keys: Seq<Seq<char>>,
) -> Seq<char> {
    let id = if uid.len() == 0 { "table-container"@ } else { uid };
    let initial = initial_view(ds, default_view);
    table_root_spec(id, classes, table_x_data_spec(initial, id, keys), oob, refresh_url)
        + table_header_spec(title, subtitle, ds, actions) + "<div class=\"relative my-2\">"@ + view_panes(ds, initial)
        + pagination + "</div>"@ + "</div>"@
}

/// The initial view of a data table.
fn initial_view_exec<'a>(ds: &'a Vec<DataTableDisplay>, default_view: &'a str) -> (r: &'a str)
    ensures
        r@ == initial_view(displays_view(ds@), default_view@),
{
    let ghost dv = displays_view(ds@);
    let mut i: usize = 0;
    while i < ds.len()
        invariant
            i <= ds.len(),
            dv == displays_view(ds@),
            forall|j: int| 0 <= j < i ==> dv[j].0 != default_view@,
        decreases ds.len() - i,
    {
        if crate::text::str_eq(ds[i].name.as_str(), default_view) {
            assert(dv[i as int].0 == default_view@);
            return default_view;
        }
        i = i + 1;
    }
    assert(!has_display(dv, default_view@));
    proof {
        reveal_strlit("List");
    }
    if ds.len() > 0 {
        ds[0].name.as_str()
    } else {
        "List"
    }
}

/// Build the opening `<div>` of a data table.
fn table_root(uid: &str, classes: &str, x_data: &str, oob: bool, refresh_url: &str) -> (r: String)
    ensures
        r@ == table_root_spec(uid@, classes@, x_data@, oob, refresh_url@),
{
    let mut out = to_owned("<div id=\"");
    push_escaped_attr(&mut out, uid);
    push_str(&mut out, "\" class=\"w-full data-table-container ");
    push_escaped_attr(&mut out, classes);
    push_str(&mut out, "\" x-data=\"");
    push_escaped_attr(&mut out, x_data);
    push_str(&mut out, "\"");
    let ghost m0 = out@;
    if oob {
        push_str(&mut out, " hx-swap-oob=\"true\"");
    } else {
        assert(m0 + Seq::<char>::empty() == m0);
    }
    let ghost m1 = out@;
    if !refresh_url.is_empty() {
        push_str(&mut out, " hx-get=\"");
        push_escaped_attr(&mut out, refresh_url);
        push_str(&mut out, "\" hx-trigger=\"lariv-table-refresh-");
        push_escaped_attr(&mut out, uid);
        push_str(&mut out, " from:document\" hx-target=\"this\" hx-swap=\"outerMorph\" hx-push-url=\"false\"");
    } else {
        assert(m1 + Seq::<char>::empty() == m1);
    }
    push_str(&mut out, ">");
    out
}

/// Build the title row of a data table.
fn table_header(title: &str, subtitle: &str, ds: &Vec<DataTableDisplay>, actions: &str) -> (r: String)
    ensures
        r@ == table_header_spec(title@, subtitle@, displays_view(ds@), actions@),
{
    let mut out = to_owned("<div class=\"flex justify-between items-center my-2\"><div>");
    let ghost m0 = out@;
    if !title.is_empty() {
        push_str(&mut out, "<div class=\"text-xl font-semibold\">");
        push_escaped_html(&mut out, title);
        push_str(&mut out, "</div>");
    } else {
        assert(m0 + Seq::<char>::empty() == m0);
    }
    let ghost m1 = out@;
    if !subtitle.is_empty() {
        push_str(&mut out, "<div class=\"text-sm text-gray-500\">");
        push_escaped_html(&mut out, subtitle);
        push_str(&mut out, "</div>");
    } else {
        assert(m1 + Seq::<char>::empty() == m1);
    }
    push_str(&mut out, "</div><div class=\"flex items-center gap-2\">");
    let ghost m2 = out@;
    if ds.len() > 1 {
        push_str(&mut out, "<select class=\"select select-md\" x-model=\"view\">");
        let ghost s0 = out@;
        let mut i: usize = 0;
        while i < ds.len()
            invariant
                i <= ds@.len(),
                out@ == s0 + view_options(displays_view(ds@.take(i as int))),
            decreases ds@.len() - i,
        {
            push_str(&mut out, "<option value=\"");
            push_escaped_html(&mut out, ds[i].name.as_str());
            push_str(&mut out, "\">");
            push_escaped_html(&mut out, ds[i].name.as_str());
            push_str(&mut out, "</option>");
            assert(displays_view(ds@.take(i + 1)).drop_last() == displays_view(ds@.take(i as int)));
            assert(displays_view(ds@.take(i + 1)).last() == ds@[i as int]@);
            i = i + 1;
        }
        assert(ds@.take(ds@.len() as int) == ds@);
        push_str(&mut out, "</select>");
    } else {
        assert(m2 + Seq::<char>::empty() == m2);
    }
    push_str(&mut out, actions);
    push_str(&mut out, "</div></div>");
    out
}

/// Append the view panes.
fn push_view_panes(out: &mut String, ds: &Vec<DataTableDisplay>, initial: &str)
    ensures
        final(out)@ == old(out)@ + view_panes(displays_view(ds@), initial@),
{
    let ghost s0 = out@;
    let mut i: usize = 0;
    while i < ds.len()
        invariant
            i <= ds@.len(),
            out@ == s0 + view_panes(displays_view(ds@.take(i as int)), initial@),
        decreases ds@.len() - i,
    {
        push_str(out, "<div :class=\"{ 'hidden': view !== '");
        push_escaped_attr(out, ds[i].name.as_str());
        push_str(out, "' }\" class=\"");
        let ghost m = out@;
        if !crate::text::str_eq(ds[i].name.as_str(), initial) {
            push_str(out, "hidden");
        } else {
            assert(m + Seq::<char>::empty() == m);
        }
        push_str(out, "\">");
        push_str(out, ds[i].html.as_str());
        push_str(out, "</div>");
        assert(displays_view(ds@.take(i + 1)).drop_last() == displays_view(ds@.take(i as int)));
        assert(displays_view(ds@.take(i + 1)).last() == ds@[i as int]@);
        i = i + 1;
    }
    assert(ds@.take(ds@.len() as int) == ds@);
}

/// Render a data table with its view toggle (and, optionally, as an OOB fragment).
pub fn data_table(opts: &DataTable) -> (r: String)
    ensures
        r@ == data_table_spec(
            opts.uid@,
            opts.title@,
            opts.subtitle@,
            opts.classes@,
            opts.actions@,
            displays_view(opts.displays@),
            opts.default_view@,
            opts.pagination@,
            opts.oob,
            opts.refresh_url@,
            keys_view(opts.column_keys@),
        ),
{
    let uid = if opts.uid.is_empty() { "table-container" } else { opts.uid };
    let initial = initial_view_exec(&opts.displays, opts.default_view);
    let x_data = data_table_x_data(initial, uid, opts.column_keys);
    let mut out = table_root(uid, opts.classes, x_data.as_str(), opts.oob, opts.refresh_url);
    let h = table_header(opts.title, opts.subtitle, &opts.displays, opts.actions.as_str());
    push_str(&mut out, h.as_str());
    push_str(&mut out, "<div class=\"relative my-2\">");
    push_view_panes(&mut out, &opts.displays, initial);
    push_str(&mut out, opts.pagination.as_str());
    push_str(&mut out, "</div>");
    push_str(&mut out, "</div>");
    out
}

/// The non-empty column keys of the headers.
pub open spec fn header_keys(hs: Seq<TableColumnHeader>) -> Seq<Seq<char>>
    decreases hs.len(),
{
    if hs.len() == 0 {
        seq![]
    } else if hs.last().key@.len() == 0 {
        header_keys(hs.drop_last())
    } else {
        header_keys(hs.drop_last()).push(hs.last().key@)
    }
}

/// List+Grid data table keyed by `K`, optionally as an OOB fragment. Both
/// views are offered, Grid first; the column picker joins the actions when
/// there is more than one column.
pub open spec fn data_table_list_spec(
    id: Seq<char>,
    selector: Seq<char>,
    title: Seq<char>,
    subtitle: Seq<char>,
    actions: Seq<char>,
    hs: Seq<TableColumnHeader>,
    rows: Seq<TableRow>,
    pagination: Seq<char>,
    oob: bool,
    default_view: Seq<char>,
    refresh_url: Seq<char>,
) -> Seq<char> {
    data_table_spec(
        id,
        title,
        subtitle,
        "w-full"@,
        if hs.len() > 1 { table_button_columns_spec(hs) + actions } else { actions },
        seq![("Grid"@, table_grid_spec(hs, rows)), ("List"@, table_list_spec(hs, rows, selector))],
        default_view,
        pagination,
        oob,
        refresh_url,
        header_keys(hs),
    )
}

/// Render a List+Grid data table keyed by `K`.
pub fn data_table_list_opts<K: SwapKey>(
    title: &str,
    subtitle: &str,
    actions: &str,
    headers: &[TableColumnHeader],
    rows: &[TableRow],
    pagination: &str,
    oob: bool,
    default_view: &str,
    refresh_url: &str,
) -> (r: String)
    ensures
        r@ == data_table_list_spec(K::ID@, K::SELECTOR@, title@, subtitle@, actions@, headers@, rows@, pagination@, oob, default_view@, refresh_url@),
{
    let list = table_list_content(&TableListContent { headers, rows, hx_target: K::SELECTOR });
    let grid = table_grid_content(headers, rows);
    let mut keys: Vec<&str> = Vec::new();
    let mut k: usize = 0;
    while k < headers.len()
        invariant
            k <= headers@.len(),
            keys_view(keys@) == header_keys(headers@.take(k as int)),
        decreases headers@.len() - k,
    {
        assert(headers@.take(k + 1).drop_last() == headers@.take(k as int));
        assert(headers@.take(k + 1).last() == headers@[k as int]);
        if !headers[k].key.is_empty() {
            let ghost before = keys@;
            keys.push(headers[k].key);
            assert(keys_view(keys@) == keys_view(before).push(headers@[k as int].key@));
        }
        k = k + 1;
    }
    assert(headers@.take(headers@.len() as int) == headers@);
    let toolbar = if headers.len() > 1 {
        let mut t = table_button_columns(headers);
        push_str(&mut t, actions);
        t
    } else {
        to_owned(actions)
    };
    let displays = vec![
        DataTableDisplay { name: to_owned("Grid"), html: grid },
        DataTableDisplay { name: to_owned("List"), html: list },
    ];
    assert(displays_view(displays@) =~= seq![("Grid"@, table_grid_spec(headers@, rows@)), ("List"@, table_list_spec(headers@, rows@, K::SELECTOR@))]);
    data_table(&DataTable {
        uid: K::ID,
        title,
        subtitle,
        classes: "w-full",
        actions: toolbar,
        displays,
        default_view,
        pagination: to_owned(pagination),
        oob,
        refresh_url,
        column_keys: keys.as_slice(),
    })
}

/// List+Grid data table, List first shown.
pub fn data_table_list<K: SwapKey>(title: &str, actions: &str, headers: &[TableColumnHeader], rows: &[TableRow], pagination: &str) -> (r: String)
    ensures
        r@ == data_table_list_spec(K::ID@, K::SELECTOR@, title@, ""@, actions@, headers@, rows@, pagination@, false, "List"@, ""@),
{
    data_table_list_opts::<K>(title, "", actions, headers, rows, pagination, false, "List", "")
}

/// Like [`data_table_list`], re-fetching `refresh_url` after a create modal succeeds.
pub fn data_table_list_refresh<K: SwapKey>(
    title: &str,
    actions: &str,
    headers: &[TableColumnHeader],
    rows: &[TableRow],
    pagination: &str,
    refresh_url: &str,
) -> (r: String)
    ensures
        r@ == data_table_list_spec(K::ID@, K::SELECTOR@, title@, ""@, actions@, headers@, rows@, pagination@, false, "List"@, refresh_url@),
{
    data_table_list_opts::<K>(title, "", actions, headers, rows, pagination, false, "List", refresh_url)
}

/// Like [`data_table_list`] with a subtitle.
pub fn data_table_list_with_subtitle<K: SwapKey>(
    title: &str,
    subtitle: &str,
    actions: &str,
    headers: &[TableColumnHeader],
    rows: &[TableRow],
    pagination: &str,
) -> (r: String)
    ensures
        r@ == data_table_list_spec(K::ID@, K::SELECTOR@, title@, subtitle@, actions@, headers@, rows@, pagination@, false, "List"@, ""@),
{
    data_table_list_opts::<K>(title, subtitle, actions, headers, rows, pagination, false, "List", "")
}

/// Like [`data_table_list`], Grid first shown.
pub fn data_table_list_grid<K: SwapKey>(title: &str, actions: &str, headers: &[TableColumnHeader], rows: &[TableRow], pagination: &str) -> (r: String)
    ensures
        r@ == data_table_list_spec(K::ID@, K::SELECTOR@, title@, ""@, actions@, headers@, rows@, pagination@, false, "Grid"@, ""@),
{
    data_table_list_opts::<K>(title, "", actions, headers, rows, pagination, false, "Grid", "")
}

/// Like [`data_table_list_grid`] with a subtitle.
pub fn data_table_list_grid_with_subtitle<K: SwapKey>(
    title: &str,
    subtitle: &str,
    actions: &str,
    headers: &[TableColumnHeader],
    rows: &[TableRow],
    pagination: &str,
) -> (r: String)
    ensures
        r@ == data_table_list_spec(K::ID@, K::SELECTOR@, title@, subtitle@, actions@, headers@, rows@, pagination@, false, "Grid"@, ""@),
{
    data_table_list_opts::<K>(title, subtitle, actions, headers, rows, pagination, false, "Grid", "")
}

} // verus!
