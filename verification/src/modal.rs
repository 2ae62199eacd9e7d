//! Modal dialog overlay.

use vstd::prelude::*;

use crate::html::{escape_html, icon, icon_spec, push_escaped_html};
use crate::swap::SwapKey;
use crate::text::{escape_attr_seq, push_escaped_attr, push_str, to_owned};

verus! {

/// Options of a modal.
pub struct Modal<'a> {
    pub uid: &'a str,
    pub classes: &'a str,
    pub children: String,
}

impl Default for Modal<'_> {
    fn default() -> (r: Self)
        ensures
            r.uid@ == "modal"@,
            r.classes@ == ""@,
            r.children@ == Seq::<char>::empty(),
    {
        Modal { uid: "modal", classes: "", children: String::new() }
    }
}

/// The script that removes the dialog `uid`.
pub open spec fn remove_script(uid: Seq<char>) -> Seq<char> {
    "document.getElementById('"@ + uid + "').remove()"@
}

/// The dialog `uid` with a close button, a backdrop and `children`.
pub open spec fn modal_spec(uid: Seq<char>, classes: Seq<char>, children: Seq<char>) -> Seq<char> {
    "<dialog id=\""@ + escape_attr_seq(uid)
        + "\" class=\"modal modal-open fk-modal-container\" hx-push-url=\"false\" hx-target=\"this\" hx-swap=\"outerHTML\">"@
        + "<div class=\""@ + escape_html(
        "modal-box max-w-4xl !overflow-y-visible bg-base-200 border border-base-300 "@ + classes,
    ) + "\"><form method=\"dialog\">"@
        + "<button type=\"button\" class=\"btn btn-sm btn-circle btn-outline btn-error absolute right-3 top-3\" onclick=\""@
        + escape_attr_seq(remove_script(uid)) + "\">"@ + icon_spec("x-mark"@, ""@, Seq::empty())
        + "</button></form><div class=\"mt-8\">"@ + children + "</div></div>"@
        + "<form method=\"dialog\" class=\"modal-backdrop\"><button onclick=\""@ + escape_attr_seq(remove_script(uid))
        + "\">close</button></form></dialog>"@
}

/// Render the dialog `uid`.
pub fn modal_with_uid(uid: &str, classes: &str, children: &str) -> (r: String)
    ensures
        r@ == modal_spec(uid@, classes@, children@),
{
    let mut onclick = to_owned("document.getElementById('");
    push_str(&mut onclick, uid);
    push_str(&mut onclick, "').remove()");
    let mut out = to_owned("<dialog id=\"");
    push_escaped_attr(&mut out, uid);
    push_str(
        &mut out,
        "\" class=\"modal modal-open fk-modal-container\" hx-push-url=\"false\" hx-target=\"this\" hx-swap=\"outerHTML\">",
    );
    push_str(&mut out, "<div class=\"");
    let mut class = to_owned("modal-box max-w-4xl !overflow-y-visible bg-base-200 border border-base-300 ");
    push_str(&mut class, classes);
    push_escaped_html(&mut out, class.as_str());
    push_str(&mut out, "\"><form method=\"dialog\">");
    push_str(
        &mut out,
        "<button type=\"button\" class=\"btn btn-sm btn-circle btn-outline btn-error absolute right-3 top-3\" onclick=\"",
    );
    push_escaped_attr(&mut out, onclick.as_str());
    push_str(&mut out, "\">");
    let x = icon("x-mark", "");
    push_str(&mut out, x.as_str());
    push_str(&mut out, "</button></form><div class=\"mt-8\">");
    push_str(&mut out, children);
    push_str(&mut out, "</div></div>");
    push_str(&mut out, "<form method=\"dialog\" class=\"modal-backdrop\"><button onclick=\"");
    push_escaped_attr(&mut out, onclick.as_str());
    push_str(&mut out, "\">close</button></form></dialog>");
    out
}

/// Render a modal.
pub fn modal(opts: Modal) -> (r: String)
    ensures
        r@ == modal_spec(opts.uid@, opts.classes@, opts.children@),
{
    modal_with_uid(opts.uid, opts.classes, opts.children.as_str())
}

/// A modal rooted at the region id of `K`.
pub fn modal_keyed<K: SwapKey>(classes: &str, children: &str) -> (r: String)
    ensures
        r@ == modal_spec(K::ID@, classes@, children@),
{
    modal_with_uid(K::ID, classes, children)
}

} // verus!
