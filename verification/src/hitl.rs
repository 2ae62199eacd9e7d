//! Human-in-the-loop approval card for gated assistant functions.

use vstd::prelude::*;

use crate::attrs::{render_entries, HtmlAttrs};
use crate::html::{escape_html, push_escaped_html};
use crate::text::{push_str, to_owned};

verus! {

/// Pending approval prompt: function name, JSON arguments, Run / Deny actions.
pub struct HitlApproval<'a> {
    pub request_id: &'a str,
    pub function_name: &'a str,
    pub args_json: &'a str,
    pub run_attrs: HtmlAttrs,
    pub deny_attrs: HtmlAttrs,
}

impl Default for HitlApproval<'_> {
    fn default() -> (r: Self)
        ensures
            r.request_id@ == ""@,
            r.function_name@ == ""@,
            r.args_json@ == "{}"@,
            r.run_attrs@ == Seq::<(Seq<char>, Seq<char>)>::empty(),
            r.deny_attrs@ == Seq::<(Seq<char>, Seq<char>)>::empty(),
    {
        HitlApproval {
            request_id: "",
            function_name: "",
            args_json: "{}",
            run_attrs: HtmlAttrs::new(),
            deny_attrs: HtmlAttrs::new(),
        }
    }
}

/// The element id of the card of request `request_id`.
pub open spec fn hitl_id(request_id: Seq<char>) -> Seq<char> {
    "llm_assistant_hitl_"@ + request_id
}

/// The pending card.
pub open spec fn hitl_approval_spec(
    request_id: Seq<char>,
    function_name: Seq<char>,
    args_json: Seq<char>,
    run_attrs: Seq<(Seq<char>, Seq<char>)>,
    deny_attrs: Seq<(Seq<char>, Seq<char>)>,
) -> Seq<char> {
    "<div id=\""@ + escape_html(hitl_id(request_id))
        + "\" class=\"rounded border border-warning/40 bg-warning/10 p-2 flex flex-col gap-2\"><div class=\"text-sm font-medium\">Approval required: <code>"@
        + escape_html(function_name)
        + "</code></div><pre class=\"text-xs whitespace-pre-wrap font-mono text-base-content border border-base-content/15 rounded p-1 m-0\">"@
        + escape_html(args_json) + "</pre><div class=\"flex gap-2\"><button type=\"button\" class=\"btn btn-primary btn-sm\""@
        + render_entries(run_attrs) + ">Run</button><button type=\"button\" class=\"btn btn-ghost btn-sm\""@
        + render_entries(deny_attrs) + ">Deny</button></div></div>"@
}

/// Render an approval card; callers supply the button attributes.
pub fn hitl_approval(opts: HitlApproval) -> (r: String)
    ensures
        r@ == hitl_approval_spec(
            opts.request_id@,
            opts.function_name@,
            opts.args_json@,
            opts.run_attrs@,
            opts.deny_attrs@,
        ),
{
    let mut id = to_owned("llm_assistant_hitl_");
    push_str(&mut id, opts.request_id);
    let mut out = to_owned("<div id=\"");
    push_escaped_html(&mut out, id.as_str());
    push_str(
        &mut out,
        "\" class=\"rounded border border-warning/40 bg-warning/10 p-2 flex flex-col gap-2\"><div class=\"text-sm font-medium\">Approval required: <code>",
    );
    push_escaped_html(&mut out, opts.function_name);
    push_str(
        &mut out,
        "</code></div><pre class=\"text-xs whitespace-pre-wrap font-mono text-base-content border border-base-content/15 rounded p-1 m-0\">",
    );
    push_escaped_html(&mut out, opts.args_json);
    push_str(&mut out, "</pre><div class=\"flex gap-2\"><button type=\"button\" class=\"btn btn-primary btn-sm\"");
    let run = opts.run_attrs.as_string();
    push_str(&mut out, run.as_str());
    push_str(&mut out, ">Run</button><button type=\"button\" class=\"btn btn-ghost btn-sm\"");
    let deny = opts.deny_attrs.as_string();
    push_str(&mut out, deny.as_str());
    push_str(&mut out, ">Deny</button></div></div>");
    out
}

/// The outcome word of a decision.
pub open spec fn status_word(approved: bool) -> Seq<char> {
    if approved {
        "ran"@
    } else {
        "denied"@
    }
}

/// The card that replaces a pending one after the human decides.
pub open spec fn hitl_resolved_spec(request_id: Seq<char>, function_name: Seq<char>, approved: bool) -> Seq<char> {
    "<div id=\""@ + escape_html(hitl_id(request_id)) + "\" class=\"rounded border border-base-content/15 p-2 text-sm\"><code>"@
        + escape_html(function_name) + "</code> \u{2014} "@ + status_word(approved) + "</div>"@
}

/// Replace a pending card after the human decides.
pub fn hitl_resolved(request_id: &str, function_name: &str, approved: bool) -> (r: String)
    ensures
        r@ == hitl_resolved_spec(request_id@, function_name@, approved),
{
    let mut id = to_owned("llm_assistant_hitl_");
    push_str(&mut id, request_id);
    let mut out = to_owned("<div id=\"");
    push_escaped_html(&mut out, id.as_str());
    push_str(&mut out, "\" class=\"rounded border border-base-content/15 p-2 text-sm\"><code>");
    push_escaped_html(&mut out, function_name);
    push_str(&mut out, "</code> \u{2014} ");
    if approved {
        push_str(&mut out, "ran");
    } else {
        push_str(&mut out, "denied");
    }
    push_str(&mut out, "</div>");
    out
}

} // verus!
