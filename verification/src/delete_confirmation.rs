//! Destructive delete confirmation form.

use vstd::prelude::*;

use crate::attrs::{render_entries, HtmlAttrs};
use crate::button::{button_submit, button_submit_spec, ButtonSubmit};
use crate::container::{error_line_spec, opt_view};
use crate::html::{escape_html, push_escaped_html};
use crate::text::{escape_attr_seq, push_escaped_attr, push_str, to_owned};

verus! {

/// Options of a delete confirmation.
pub struct DeleteConfirmation<'a> {
    pub title: &'a str,
    pub message: &'a str,
    pub classes: &'a str,
    pub form_error: Option<&'a str>,
    pub global_error: Option<&'a str>,
    pub attrs: HtmlAttrs,
}

impl Default for DeleteConfirmation<'_> {
    fn default() -> (r: Self)
        ensures
            r.title@ == "Confirm Deletion"@,
            r.message@ == "Are you sure you want to delete this item?"@,
            r.classes@ == ""@,
            r.form_error is None,
            r.global_error is None,
            r.attrs@ == Seq::<(Seq<char>, Seq<char>)>::empty(),
    {
        DeleteConfirmation {
            title: "Confirm Deletion",
            message: "Are you sure you want to delete this item?",
            classes: "",
            form_error: None,
            global_error: None,
            attrs: HtmlAttrs::new(),
        }
    }
}

/// The class of the confirmation form.
pub const DELETE_FORM_CLASS: &'static str = "flex flex-col gap-2 gap-2 my-4";

/// The alert above the form: nothing for no or an empty message.
pub open spec fn global_error_spec(err: Option<Seq<char>>) -> Seq<char> {
    match err {
        Some(e) => if e.len() == 0 {
            seq![]
        } else {
            "<div class=\"alert alert-error my-2 text-sm\">"@ + escape_html(e) + "</div>"@
        },
        None => seq![],
    }
}

/// The whole confirmation.
pub open spec fn delete_confirmation_spec(
    title: Seq<char>,
    message: Seq<char>,
    classes: Seq<char>,
    form_error: Option<Seq<char>>,
    global_error: Option<Seq<char>>,
    attrs: Seq<(Seq<char>, Seq<char>)>,
) -> Seq<char> {
    "<div class=\""@ + escape_html("container mx-auto "@ + classes) + "\"><h2 class=\"text-xl font-bold text-error\">"@
        + escape_html(title) + "</h2><p class=\"my-2\">"@ + escape_html(message) + "</p>"@ + global_error_spec(
        global_error,
    ) + "<form class=\""@ + escape_attr_seq(DELETE_FORM_CLASS@) + "\""@ + render_entries(attrs) + ">"@
        + error_line_spec(form_error) + "<div class=\"my-2\">"@ + button_submit_spec(
        "Confirm Delete"@,
        None,
        "btn-error my-2"@,
        Seq::empty(),
    ) + "</div></form></div>"@
}

/// Render a delete confirmation.
pub fn delete_confirmation(opts: DeleteConfirmation) -> (r: String)
    ensures
        r@ == delete_confirmation_spec(
            opts.title@,
            opts.message@,
            opts.classes@,
            opt_view(opts.form_error),
            opt_view(opts.global_error),
            opts.attrs@,
        ),
{
    let mut out = to_owned("<div class=\"");
    let mut class = to_owned("container mx-auto ");
    push_str(&mut class, opts.classes);
    push_escaped_html(&mut out, class.as_str());
    push_str(&mut out, "\"><h2 class=\"text-xl font-bold text-error\">");
    push_escaped_html(&mut out, opts.title);
    push_str(&mut out, "</h2><p class=\"my-2\">");
    push_escaped_html(&mut out, opts.message);
    push_str(&mut out, "</p>");
    let ghost s0 = out@;
    match opts.global_error {
        Some(e) => {
            if !e.is_empty() {
                push_str(&mut out, "<div class=\"alert alert-error my-2 text-sm\">");
                push_escaped_html(&mut out, e);
                push_str(&mut out, "</div>");
            } else {
                assert(s0 + Seq::<char>::empty() == s0);
            }
        },
        None => {
            assert(s0 + Seq::<char>::empty() == s0);
        },
    }
    push_str(&mut out, "<form class=\"");
    push_escaped_attr(&mut out, DELETE_FORM_CLASS);
    push_str(&mut out, "\"");
    let a = opts.attrs.as_string();
    push_str(&mut out, a.as_str());
    push_str(&mut out, ">");
    let ghost s1 = out@;
    match opts.form_error {
        Some(e) => {
            if !e.is_empty() {
                push_str(&mut out, "<span class=\"text-sm text-error\">");
                push_escaped_html(&mut out, e);
                push_str(&mut out, "</span>");
            } else {
                assert(s1 + Seq::<char>::empty() == s1);
            }
        },
        None => {
            assert(s1 + Seq::<char>::empty() == s1);
        },
    }
    push_str(&mut out, "<div class=\"my-2\">");
    let b = button_submit(
        &ButtonSubmit { label: "Confirm Delete", icon_name: None, classes: "btn-error my-2", attrs: HtmlAttrs::new() },
    );
    push_str(&mut out, b.as_str());
    push_str(&mut out, "</div></form></div>");
    out
}

} // verus!
