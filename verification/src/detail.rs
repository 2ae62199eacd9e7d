//! Detail panel wrappers.

use vstd::prelude::*;

use crate::field::{field_title, FieldTitle};
use crate::html::{div_spec, escape_html};
use crate::text::{push_str, to_owned};

verus! {

/// A detail panel around rendered children.
pub struct Detail {
    pub children: String,
}

/// `<div>{children}</div>`.
pub fn detail(children: &str) -> (r: String)
    ensures
        r@ == "<div>"@ + children@ + "</div>"@,
{
    let mut out = to_owned("<div>");
    push_str(&mut out, children);
    push_str(&mut out, "</div>");
    out
}

/// Detail page title row with primary actions aligned to the top right.
pub struct DetailHeader<'a> {
    pub title: &'a str,
    pub actions: String,
}

/// The heading row of a detail page.
pub open spec fn detail_header_spec(title: Seq<char>, actions: Seq<char>) -> Seq<char> {
    "<div class=\"flex flex-wrap items-center justify-between gap-2 mb-4\">"@ + div_spec(
        "text-xl font-semibold text-primary "@ + "mb-0"@,
        escape_html(title),
    ) + "<div class=\"flex flex-wrap items-center gap-2\">"@ + actions + "</div></div>"@
}

/// Render a detail page heading with optional action buttons above the field list.
pub fn detail_header(opts: DetailHeader) -> (r: String)
    ensures
        r@ == detail_header_spec(opts.title@, opts.actions@),
{
    let mut out = to_owned("<div class=\"flex flex-wrap items-center justify-between gap-2 mb-4\">");
    let t = field_title(FieldTitle { value: opts.title, classes: "mb-0" });
    push_str(&mut out, t.as_str());
    push_str(&mut out, "<div class=\"flex flex-wrap items-center gap-2\">");
    push_str(&mut out, opts.actions.as_str());
    push_str(&mut out, "</div></div>");
    out
}

} // verus!
