//! Breadcrumb trail for app-pane navigation chrome.

use vstd::prelude::*;

use crate::attrs::render_entries;
use crate::html::{escape_html, push_escaped_html};
use crate::nav_origin::DASHBOARD_URL;
use crate::swap::{hx_nav_app_layout_for_url, nav_app_layout_spec};
use crate::text::{escape_attr_seq, push_escaped_attr, push_str, str_eq, to_owned};

verus! {

/// One segment in a breadcrumb trail; `href: None` marks the current page
/// (plain text, no link).
#[derive(Clone, Copy, Debug)]
pub struct Crumb<'a> {
    pub label: &'a str,
    pub href: Option<&'a str>,
}

/// The label of the crumb that leads back to the apps dashboard.
pub const DASHBOARD_LABEL: &'static str = "Dashboard";

/// Whether `c` is the dashboard crumb.
pub open spec fn is_dashboard_crumb(c: Crumb) -> bool {
    c.label@ == DASHBOARD_LABEL@ && match c.href {
        Some(h) => h@ == DASHBOARD_URL@,
        None => false,
    }
}

/// A dashboard crumb goes first when the request came from the dashboard and
/// the trail does not already start with one.
pub open spec fn prepend_dashboard_spec(items: Seq<Crumb>, from_dashboard: bool) -> bool {
    from_dashboard && !(items.len() > 0 && is_dashboard_crumb(items[0]))
}

/// One `<li>`: a linked crumb navigates by replacing the app layout.
pub open spec fn crumb_li_spec(label: Seq<char>, href: Option<Seq<char>>) -> Seq<char> {
    match href {
        Some(h) => "<li><a href=\""@ + escape_attr_seq(h) + "\""@ + render_entries(nav_app_layout_spec(h)) + ">"@
            + escape_html(label) + "</a></li>"@,
        None => "<li><span>"@ + escape_html(label) + "</span></li>"@,
    }
}

/// The `<li>` of a crumb value.
pub open spec fn crumb_spec(c: Crumb) -> Seq<char> {
    crumb_li_spec(
        c.label@,
        match c.href {
            Some(h) => Some(h@),
            None => None,
        },
    )
}

/// The `<li>`s of `items`, in order.
pub open spec fn crumbs_spec(items: Seq<Crumb>) -> Seq<char>
    decreases items.len(),
{
    if items.len() == 0 {
        seq![]
    } else {
        crumbs_spec(items.drop_last()) + crumb_spec(items.last())
    }
}

/// The whole trail: nothing when there is nothing to show.
pub open spec fn breadcrumbs_spec(items: Seq<Crumb>, from_dashboard: bool) -> Seq<char> {
    let prepend = prepend_dashboard_spec(items, from_dashboard);
    if items.len() == 0 && !prepend {
        seq![]
    } else {
        "<div class=\"breadcrumbs text-sm min-w-0 flex-1 overflow-x-auto\"><ul>"@ + (if prepend {
            crumb_li_spec(DASHBOARD_LABEL@, Some(DASHBOARD_URL@))
        } else {
            seq![]
        }) + crumbs_spec(items) + "</ul></div>"@
    }
}

/// Whether the dashboard crumb should be put first.
pub fn should_prepend_dashboard(items: &[Crumb], from_dashboard: bool) -> (r: bool)
    ensures
        r == prepend_dashboard_spec(items@, from_dashboard),
{
    if !from_dashboard {
        return false;
    }
    if items.len() == 0 {
        return true;
    }
    let first = items[0];
    let is_dash = str_eq(first.label, DASHBOARD_LABEL) && match first.href {
        Some(h) => str_eq(h, DASHBOARD_URL),
        None => false,
    };
    !is_dash
}

fn crumb_li(label: &str, href: Option<&str>) -> (r: String)
    ensures
        r@ == crumb_li_spec(
            label@,
            match href {
                Some(h) => Some(h@),
                None => None,
            },
        ),
{
    match href {
        Some(h) => {
            let mut out = to_owned("<li><a href=\"");
            push_escaped_attr(&mut out, h);
            push_str(&mut out, "\"");
            let a = hx_nav_app_layout_for_url(h).as_string();
            push_str(&mut out, a.as_str());
            push_str(&mut out, ">");
            push_escaped_html(&mut out, label);
            push_str(&mut out, "</a></li>");
            out
        },
        None => {
            let mut out = to_owned("<li><span>");
            push_escaped_html(&mut out, label);
            push_str(&mut out, "</span></li>");
            out
        },
    }
}

/// Render a breadcrumb list. An empty trail renders nothing unless the request
/// arrived from the apps dashboard (then a Dashboard crumb is shown). Linked
/// crumbs navigate with app-layout swaps, as sidebar pane links do.
pub fn breadcrumbs(items: &[Crumb], from_dashboard: bool) -> (r: String)
    ensures
        r@ == breadcrumbs_spec(items@, from_dashboard),
{
    let prepend = should_prepend_dashboard(items, from_dashboard);
    if items.len() == 0 && !prepend {
        proof {
            reveal_strlit("");
        }
        return String::new();
    }
    let mut out = to_owned("<div class=\"breadcrumbs text-sm min-w-0 flex-1 overflow-x-auto\"><ul>");
    if prepend {
        let d = crumb_li(DASHBOARD_LABEL, Some(DASHBOARD_URL));
        push_str(&mut out, d.as_str());
    } else {
        assert(out@ + Seq::<char>::empty() == out@);
    }
    let ghost head = out@;
    let mut i: usize = 0;
    while i < items.len()
        invariant
            i <= items.len(),
            out@ == head + crumbs_spec(items@.take(i as int)),
        decreases items.len() - i,
    {
        let c = items[i];
        let li = crumb_li(c.label, c.href);
        push_str(&mut out, li.as_str());
        proof {
            assert(items@.take(i + 1).drop_last() == items@.take(i as int));
            assert(items@.take(i + 1).last() == c);
        }
        i = i + 1;
    }
    proof {
        assert(items@.take(items.len() as int) == items@);
    }
    push_str(&mut out, "</ul></div>");
    out
}

} // verus!
