//! Form wrapper (presentational; parsing stays in handlers).

use vstd::prelude::*;

use crate::attrs::{lookup, render_entries, HtmlAttrs};
use crate::container::{error_line_spec, opt_view};
use crate::html::{escape_html, push_escaped_html};
use crate::text::{escape_attr_seq, push_char, push_escaped_attr, push_str, to_owned};

verus! {

/// Options of a form.
pub struct FormOpts<'a> {
    pub title: &'a str,
    pub subtitle: &'a str,
    pub action: Option<&'a str>,
    pub method: &'a str,
    pub enctype: Option<&'a str>,
    pub classes: &'a str,
    pub form_error: Option<&'a str>,
    pub inputs: String,
    pub actions: String,
    pub prefix: String,
    pub suffix: String,
    pub attrs: HtmlAttrs,
}

impl Default for FormOpts<'_> {
    fn default() -> (r: Self)
        ensures
            r.title@ == ""@,
            r.subtitle@ == ""@,
            r.action is None,
            r.method@ == "post"@,
            r.enctype is None,
            r.classes@ == ""@,
            r.form_error is None,
            r.inputs@ == Seq::<char>::empty(),
            r.actions@ == Seq::<char>::empty(),
            r.prefix@ == Seq::<char>::empty(),
            r.suffix@ == Seq::<char>::empty(),
            r.attrs@ == Seq::<(Seq<char>, Seq<char>)>::empty(),
    {
        FormOpts {
            title: "",
            subtitle: "",
            action: None,
            method: "post",
            enctype: None,
            classes: "",
            form_error: None,
            inputs: String::new(),
            actions: String::new(),
            prefix: String::new(),
            suffix: String::new(),
            attrs: HtmlAttrs::new(),
        }
    }
}

/// ` {name}="{value}"` with the value escaped.
pub open spec fn attr_spec(name: Seq<char>, value: Seq<char>) -> Seq<char> {
    seq![' '] + name + "=\""@ + escape_attr_seq(value) + "\""@
}

/// The opening `<form>` tag: `method` unless the attributes set one, `action`
/// unless `hx-post` or `hx-get` already carry the URL, and `enctype` when given.
pub open spec fn form_open_spec(
    classes: Seq<char>,
    method: Seq<char>,
    action: Option<Seq<char>>,
    enctype: Option<Seq<char>>,
    attrs: Seq<(Seq<char>, Seq<char>)>,
) -> Seq<char> {
    "<form class=\""@ + escape_attr_seq("flex flex-col gap-2 "@ + classes) + "\""@ + (if lookup(
        attrs,
        "method"@,
    ) is None {
        attr_spec("method"@, method)
    } else {
        seq![]
    }) + (match action {
        Some(a) => if lookup(attrs, "hx-post"@) is None && lookup(attrs, "hx-get"@) is None {
            attr_spec("action"@, a)
        } else {
            seq![]
        },
        None => seq![],
    }) + (match enctype {
        Some(e) => attr_spec("enctype"@, e),
        None => seq![],
    }) + render_entries(attrs) + ">"@
}

/// The heading block, always present.
pub open spec fn form_heading_spec(title: Seq<char>, subtitle: Seq<char>) -> Seq<char> {
    "<div>"@ + (if title.len() == 0 {
        seq![]
    } else {
        "<div class=\"text-xl font-semibold\">"@ + escape_html(title) + "</div>"@
    }) + (if subtitle.len() == 0 {
        seq![]
    } else {
        "<div class=\"text-sm text-gray-500\">"@ + escape_html(subtitle) + "</div>"@
    }) + "</div>"@
}

/// The whole form.
pub open spec fn form_spec(
    open: Seq<char>,
    prefix: Seq<char>,
    heading: Seq<char>,
    inputs: Seq<char>,
    error: Option<Seq<char>>,
    actions: Seq<char>,
    suffix: Seq<char>,
) -> Seq<char> {
    open + prefix + heading + "<div>"@ + inputs + "</div>"@ + error_line_spec(error)
        + "<div class=\"my-2 flex w-full justify-between items-center\">"@ + actions + "</div>"@ + suffix + "</form>"@
}

fn push_attr(out: &mut String, name: &str, value: &str)
    ensures
        final(out)@ == old(out)@ + attr_spec(name@, value@),
{
    push_char(out, ' ');
    push_str(out, name);
    push_str(out, "=\"");
    push_escaped_attr(out, value);
    push_str(out, "\"");
}

/// The opening tag of a form.
pub fn form_open(opts: &FormOpts) -> (r: String)
    ensures
        r@ == form_open_spec(opts.classes@, opts.method@, opt_view(opts.action), opt_view(opts.enctype), opts.attrs@),
{
    let mut class = to_owned("flex flex-col gap-2 ");
    push_str(&mut class, opts.classes);
    let mut open = to_owned("<form class=\"");
    push_escaped_attr(&mut open, class.as_str());
    push_str(&mut open, "\"");
    let ghost s0 = open@;
    if !opts.attrs.contains_key("method") {
        push_attr(&mut open, "method", opts.method);
    } else {
        assert(s0 + Seq::<char>::empty() == s0);
    }
    let ghost s1 = open@;
    match opts.action {
        Some(action) => {
            if !opts.attrs.contains_key("hx-post") && !opts.attrs.contains_key("hx-get") {
                push_attr(&mut open, "action", action);
            } else {
                assert(s1 + Seq::<char>::empty() == s1);
            }
        },
        None => {
            assert(s1 + Seq::<char>::empty() == s1);
        },
    }
    let ghost s2 = open@;
    match opts.enctype {
        Some(e) => {
            push_attr(&mut open, "enctype", e);
        },
        None => {
            assert(s2 + Seq::<char>::empty() == s2);
        },
    }
    let a = opts.attrs.as_string();
    push_str(&mut open, a.as_str());
    push_str(&mut open, ">");
    open
}

/// The heading block of a form.
pub fn form_heading(title: &str, subtitle: &str) -> (r: String)
    ensures
        r@ == form_heading_spec(title@, subtitle@),
{
    let mut out = to_owned("<div>");
    let ghost s0 = out@;
    if !title.is_empty() {
        push_str(&mut out, "<div class=\"text-xl font-semibold\">");
        push_escaped_html(&mut out, title);
        push_str(&mut out, "</div>");
    } else {
        assert(s0 + Seq::<char>::empty() == s0);
    }
    let ghost s1 = out@;
    if !subtitle.is_empty() {
        push_str(&mut out, "<div class=\"text-sm text-gray-500\">");
        push_escaped_html(&mut out, subtitle);
        push_str(&mut out, "</div>");
    } else {
        assert(s1 + Seq::<char>::empty() == s1);
    }
    push_str(&mut out, "</div>");
    out
}

/// Render a form around its inputs and actions.
pub fn form(opts: FormOpts) -> (r: String)
    ensures
        r@ == form_spec(
            form_open_spec(opts.classes@, opts.method@, opt_view(opts.action), opt_view(opts.enctype), opts.attrs@),
            opts.prefix@,
            form_heading_spec(opts.title@, opts.subtitle@),
            opts.inputs@,
            opt_view(opts.form_error),
            opts.actions@,
            opts.suffix@,
        ),
{
    let mut out = form_open(&opts);
    push_str(&mut out, opts.prefix.as_str());
    let h = form_heading(opts.title, opts.subtitle);
    push_str(&mut out, h.as_str());
    push_str(&mut out, "<div>");
    push_str(&mut out, opts.inputs.as_str());
    push_str(&mut out, "</div>");
    let ghost s0 = out@;
    match opts.form_error {
        Some(err) => {
            if !err.is_empty() {
                push_str(&mut out, "<span class=\"text-sm text-error\">");
                push_escaped_html(&mut out, err);
                push_str(&mut out, "</span>");
            } else {
                assert(s0 + Seq::<char>::empty() == s0);
            }
        },
        None => {
            assert(s0 + Seq::<char>::empty() == s0);
        },
    }
    push_str(&mut out, "<div class=\"my-2 flex w-full justify-between items-center\">");
    push_str(&mut out, opts.actions.as_str());
    push_str(&mut out, "</div>");
    push_str(&mut out, opts.suffix.as_str());
    push_str(&mut out, "</form>");
    out
}

} // verus!
