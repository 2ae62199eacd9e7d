//! Vertical timeline list.

use vstd::prelude::*;

use crate::attrs::render_entries;
use crate::html::{escape_html, push_escaped_html};
use crate::swap::{hx_nav_app_layout_for_url, nav_app_layout_spec, with_attr, Attrs};
use crate::text::{escape_attr_seq, push_escaped_attr, push_str, to_owned};

verus! {

/// One entry: its rendered content, linked when it has an href.
pub struct TimelineItem {
    pub content: String,
    pub href: Option<String>,
}

/// Options of a timeline.
pub struct Timeline<'a> {
    pub uid: &'a str,
    pub title: Option<&'a str>,
    pub actions: String,
    /// Rendered before the header (e.g. date filter forms).
    pub prefix: String,
    pub items: &'a [TimelineItem],
    pub pagination: String,
    pub classes: &'a str,
}

/// The id used when none is given.
pub const TIMELINE_UID: &'static str = "timeline-container";

impl Default for Timeline<'_> {
    fn default() -> (r: Self)
        ensures
            r.uid@ == TIMELINE_UID@,
            r.title is None,
            r.actions@ == Seq::<char>::empty(),
            r.prefix@ == Seq::<char>::empty(),
            r.items@.len() == 0,
            r.pagination@ == Seq::<char>::empty(),
            r.classes@ == ""@,
    {
        Timeline {
            uid: TIMELINE_UID,
            title: None,
            actions: String::new(),
            prefix: String::new(),
            items: &[],
            pagination: String::new(),
            classes: "",
        }
    }
}

/// The row of one entry: indicator dot and card.
pub open spec fn item_row_spec(content: Seq<char>) -> Seq<char> {
    "<div class=\"timeline-item relative flex items-center gap-4\"><div class=\"timeline-indicator relative z-10 flex items-center\"><div class=\"w-3 h-3 rounded-full bg-primary\"></div></div><div class=\"timeline-card flex-1 p-2 m-1 rounded-box border border-base-300\">"@
        + content + "</div></div>"@
}

/// The link attributes of a linked entry.
pub open spec fn item_link_attrs(href: Seq<char>) -> Attrs {
    with_attr(nav_app_layout_spec(href), "class"@, "block no-underline text-inherit"@)
}

/// One entry, linked or not.
pub open spec fn item_spec(item: TimelineItem) -> Seq<char> {
    match item.href {
        Some(h) => "<a href=\""@ + escape_attr_seq(h@) + "\""@ + render_entries(item_link_attrs(h@)) + ">"@
            + item_row_spec(item.content@) + "</a>"@,
        None => item_row_spec(item.content@),
    }
}

/// The entries, in order.
pub open spec fn items_spec(items: Seq<TimelineItem>) -> Seq<char>
    decreases items.len(),
{
    if items.len() == 0 {
        seq![]
    } else {
        items_spec(items.drop_last()) + item_spec(items.last())
    }
}

/// The header: title and actions, shown only with a title.
pub open spec fn header_spec(title: Option<Seq<char>>, actions: Seq<char>) -> Seq<char> {
    match title {
        Some(t) => "<div class=\"flex justify-between items-center mb-4\"><div class=\"text-xl font-semibold\">"@
            + escape_html(t) + "</div><div class=\"flex items-center gap-2\">"@ + actions + "</div></div>"@,
        None => seq![],
    }
}

/// The scrolling body: connector line and entries, or the empty notice.
pub open spec fn body_spec(items: Seq<TimelineItem>) -> Seq<char> {
    "<div class=\"timeline-scroll relative\">"@ + (if items.len() == 0 {
        "<div class=\"text-center opacity-60 py-8\">No items found</div>"@
    } else {
        "<div class=\"absolute left-[5px] top-0 bottom-0 w-0.5 bg-primary opacity-30\"></div>"@ + items_spec(items)
    }) + "</div>"@
}

/// The whole timeline.
pub open spec fn timeline_spec(
    uid: Seq<char>,
    classes: Seq<char>,
    prefix: Seq<char>,
    title: Option<Seq<char>>,
    actions: Seq<char>,
    items: Seq<TimelineItem>,
    pagination: Seq<char>,
) -> Seq<char> {
    let id = if uid.len() == 0 { TIMELINE_UID@ } else { uid };
    "<div id=\""@ + escape_html(id) + "\" class=\""@ + escape_html("timeline-container "@ + classes) + "\">"@ + prefix
        + header_spec(title, actions) + body_spec(items) + pagination + "</div>"@
}

fn timeline_item(item: &TimelineItem) -> (r: String)
    ensures
        r@ == item_spec(*item),
{
    let mut row = to_owned(
        "<div class=\"timeline-item relative flex items-center gap-4\"><div class=\"timeline-indicator relative z-10 flex items-center\"><div class=\"w-3 h-3 rounded-full bg-primary\"></div></div><div class=\"timeline-card flex-1 p-2 m-1 rounded-box border border-base-300\">",
    );
    push_str(&mut row, item.content.as_str());
    push_str(&mut row, "</div></div>");
    match &item.href {
        Some(h) => {
            let attrs = hx_nav_app_layout_for_url(h.as_str()).set("class", "block no-underline text-inherit");
            let mut out = to_owned("<a href=\"");
            push_escaped_attr(&mut out, h.as_str());
            push_str(&mut out, "\"");
            let a = attrs.as_string();
            push_str(&mut out, a.as_str());
            push_str(&mut out, ">");
            push_str(&mut out, row.as_str());
            push_str(&mut out, "</a>");
            out
        },
        None => row,
    }
}

fn timeline_body(items: &[TimelineItem]) -> (r: String)
    ensures
        r@ == body_spec(items@),
{
    let mut out = to_owned("<div class=\"timeline-scroll relative\">");
    if items.len() == 0 {
        push_str(&mut out, "<div class=\"text-center opacity-60 py-8\">No items found</div>");
    } else {
        push_str(&mut out, "<div class=\"absolute left-[5px] top-0 bottom-0 w-0.5 bg-primary opacity-30\"></div>");
        let ghost head = out@;
        let mut i: usize = 0;
        while i < items.len()
            invariant
                i <= items.len(),
                out@ == head + items_spec(items@.take(i as int)),
            decreases items.len() - i,
        {
            let s = timeline_item(&items[i]);
            push_str(&mut out, s.as_str());
            proof {
                assert(items@.take(i + 1).drop_last() == items@.take(i as int));
                assert(items@.take(i + 1).last() == items@[i as int]);
            }
            i = i + 1;
        }
        proof {
            assert(items@.take(items.len() as int) == items@);
        }
    }
    push_str(&mut out, "</div>");
    out
}

/// Render a vertical timeline with optional header, connector line and pagination.
pub fn timeline(opts: Timeline) -> (r: String)
    ensures
        r@ == timeline_spec(
            opts.uid@,
            opts.classes@,
            opts.prefix@,
            match opts.title {
                Some(t) => Some(t@),
                None => None,
            },
            opts.actions@,
            opts.items@,
            opts.pagination@,
        ),
{
    let uid = if opts.uid.is_empty() { TIMELINE_UID } else { opts.uid };
    let mut out = to_owned("<div id=\"");
    push_escaped_html(&mut out, uid);
    push_str(&mut out, "\" class=\"");
    let mut class = to_owned("timeline-container ");
    push_str(&mut class, opts.classes);
    push_escaped_html(&mut out, class.as_str());
    push_str(&mut out, "\">");
    push_str(&mut out, opts.prefix.as_str());
    let ghost mid = out@;
    match opts.title {
        Some(t) => {
            push_str(&mut out, "<div class=\"flex justify-between items-center mb-4\"><div class=\"text-xl font-semibold\">");
            push_escaped_html(&mut out, t);
            push_str(&mut out, "</div><div class=\"flex items-center gap-2\">");
            push_str(&mut out, opts.actions.as_str());
            push_str(&mut out, "</div></div>");
        },
        None => {
            assert(mid + Seq::<char>::empty() == mid);
        },
    }
    let body = timeline_body(opts.items);
    push_str(&mut out, body.as_str());
    push_str(&mut out, opts.pagination.as_str());
    push_str(&mut out, "</div>");
    out
}

} // verus!
