//! Label wrappers around child markup.

use vstd::prelude::*;

use crate::container::opt_view;
use crate::html::{escape_html, push_escaped_html};
use crate::text::{push_str, to_owned};

verus! {

/// A titled block around child markup, with an optional hint.
pub struct Label<'a> {
    pub label: &'a str,
    pub hint: Option<&'a str>,
    pub children: String,
}

/// The markup before a hint's text: the info icon and the opening of its popover.
pub const HINT_OPEN: &'static str = "<span class=\"relative inline-flex align-middle\" x-data=\"{ hintOpen: false, hintLeave: null }\" x-on:mouseenter=\"clearTimeout(hintLeave); hintOpen = true\" x-on:mouseleave=\"hintLeave = setTimeout(() => hintOpen = false, 120)\"><span class=\"cursor-help opacity-60 text-sm font-normal leading-none\" aria-label=\"Field information\">\u{1F6C8}</span><div x-show=\"hintOpen\" x-cloak class=\"absolute top-full left-0 pt-1 z-50 w-max max-w-lg\"><div class=\"max-h-64 overflow-y-auto overflow-x-hidden rounded-box border border-base-300 bg-base-100 text-base-content px-3 py-2 text-left text-xs leading-snug whitespace-pre-line shadow-md\">";

/// The markup after a hint's text.
pub const HINT_CLOSE: &'static str = "</div></div></span>";

/// The hint icon and popover: nothing without a non-empty hint.
pub open spec fn hint_icon_spec(hint: Option<Seq<char>>) -> Seq<char> {
    match hint {
        Some(t) => if t.len() == 0 {
            seq![]
        } else {
            HINT_OPEN@ + escape_html(t) + HINT_CLOSE@
        },
        None => seq![],
    }
}

/// The whole labelled block.
pub open spec fn label_hint_spec(label: Seq<char>, hint: Option<Seq<char>>, children: Seq<char>) -> Seq<char> {
    "<div class=\"my-1 w-full\"><label class=\"label text-sm font-bold flex flex-col items-stretch gap-1 w-full min-w-0\"><span class=\"inline-flex items-center gap-1\">"@
        + escape_html(label) + hint_icon_spec(hint) + "</span></label>"@ + children + "</div>"@
}

/// A label with an optional hint popover above `children`.
pub fn label_hint(label: &str, hint: Option<&str>, children: &str) -> (r: String)
    ensures
        r@ == label_hint_spec(label@, opt_view(hint), children@),
{
    let mut out = to_owned(
        "<div class=\"my-1 w-full\"><label class=\"label text-sm font-bold flex flex-col items-stretch gap-1 w-full min-w-0\"><span class=\"inline-flex items-center gap-1\">",
    );
    push_escaped_html(&mut out, label);
    let ghost mid = out@;
    match hint {
        Some(t) => {
            if !t.is_empty() {
                push_str(&mut out, HINT_OPEN);
                push_escaped_html(&mut out, t);
                push_str(&mut out, HINT_CLOSE);
            } else {
                assert(mid + Seq::<char>::empty() == mid);
            }
        },
        None => {
            assert(mid + Seq::<char>::empty() == mid);
        },
    }
    push_str(&mut out, "</span></label>");
    push_str(&mut out, children);
    push_str(&mut out, "</div>");
    out
}

/// A label above `children`, without a hint.
pub fn label(title: &str, children: &str) -> (r: String)
    ensures
        r@ == label_hint_spec(title@, None, children@),
{
    label_hint(title, None, children)
}

} // verus!
