//! Layout containers around already rendered markup.

use vstd::prelude::*;

use crate::html::{concat, div_class, div_spec, escape_html, push_escaped_html};
use crate::text::{push_str, to_owned};

verus! {

/// A flex row.
pub struct ContainerRow<'a> {
    pub classes: &'a str,
    pub children: String,
}

/// A full-width flex column.
pub struct ContainerColumn<'a> {
    pub classes: &'a str,
    pub children: String,
}

/// Children with an optional error message below them.
pub struct ContainerError<'a> {
    pub error: Option<&'a str>,
    pub children: String,
}

/// A `<div>` of the given classes.
pub struct ContainerHtml<'a> {
    pub classes: &'a str,
    pub children: String,
}

/// `<div class="flex flex-row gap-1 {classes}">{children}</div>`.
pub fn container_row(classes: &str, children: &str) -> (r: String)
    ensures
        r@ == div_spec("flex flex-row gap-1 "@ + classes@, children@),
{
    let class = concat("flex flex-row gap-1 ", classes);
    div_class(class.as_str(), children)
}

/// `<div class="flex flex-col gap-1 min-w-0 w-full {classes}">{children}</div>`.
pub fn container_column(classes: &str, children: &str) -> (r: String)
    ensures
        r@ == div_spec("flex flex-col gap-1 min-w-0 w-full "@ + classes@, children@),
{
    let class = concat("flex flex-col gap-1 min-w-0 w-full ", classes);
    div_class(class.as_str(), children)
}

/// The error line under a container: nothing for no or an empty message.
pub open spec fn error_line_spec(error: Option<Seq<char>>) -> Seq<char> {
    match error {
        Some(msg) => if msg.len() == 0 {
            seq![]
        } else {
            "<span class=\"text-sm text-error\">"@ + escape_html(msg) + "</span>"@
        },
        None => seq![],
    }
}

/// The view of an optional text.
pub open spec fn opt_view(o: Option<&str>) -> Option<Seq<char>> {
    match o {
        Some(s) => Some(s@),
        None => None,
    }
}

/// Children followed by the error message, when there is one.
pub fn container_error(error: Option<&str>, children: &str) -> (r: String)
    ensures
        r@ == "<div class=\"flex flex-col gap-1 w-full\">"@ + children@ + error_line_spec(opt_view(error))
            + "</div>"@,
{
    let mut out = to_owned("<div class=\"flex flex-col gap-1 w-full\">");
    push_str(&mut out, children);
    let ghost mid = out@;
    match error {
        Some(msg) => {
            if !msg.is_empty() {
                push_str(&mut out, "<span class=\"text-sm text-error\">");
                push_escaped_html(&mut out, msg);
                push_str(&mut out, "</span>");
            } else {
                assert(mid + Seq::<char>::empty() == mid);
            }
        },
        None => {
            assert(mid + Seq::<char>::empty() == mid);
        },
    }
    push_str(&mut out, "</div>");
    out
}

/// `<div class="{classes}">{children}</div>`.
pub fn container_html(classes: &str, children: &str) -> (r: String)
    ensures
        r@ == div_spec(classes@, children@),
{
    div_class(classes, children)
}

} // verus!
