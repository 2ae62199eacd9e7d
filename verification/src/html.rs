//! HTML text primitives shared by the components: escaping of text and
//! attribute values as the templates write them, and heroicon spans.

use vstd::prelude::*;

use crate::attrs::{render_entries, HtmlAttrs};
use crate::text::{escape_attr_seq, push_char, push_escaped_attr, push_str};

verus! {

/// Escape of one character of text or of an attribute written by a template,
/// as maud's `Escaper` writes it: `&`, `<`, `>` and `"` become entities, every
/// other character is kept.
pub open spec fn escape_html_char(c: char) -> Seq<char> {
    if c == '&' {
        "&amp;"@
    } else if c == '<' {
        "&lt;"@
    } else if c == '>' {
        "&gt;"@
    } else if c == '"' {
        "&quot;"@
    } else {
        seq![c]
    }
}

/// `s` escaped for HTML text or a double-quoted attribute.
pub open spec fn escape_html(s: Seq<char>) -> Seq<char>
    decreases s.len(),
{
    if s.len() == 0 {
        seq![]
    } else {
        escape_html(s.drop_last()) + escape_html_char(s.last())
    }
}

/// Append `s` escaped for HTML.
pub fn push_escaped_html(out: &mut String, s: &str)
    ensures
        final(out)@ == old(out)@ + escape_html(s@),
{
    let v = crate::text::chars_of(s);
    let ghost start = out@;
    let mut i: usize = 0;
    while i < v.len()
        invariant
            i <= v.len(),
            v@ == s@,
            out@ == start + escape_html(v@.subrange(0, i as int)),
        decreases v.len() - i,
    {
        let c = v[i];
        assert(v@.subrange(0, i + 1).drop_last() == v@.subrange(0, i as int));
        if c == '&' {
            push_str(out, "&amp;");
        } else if c == '<' {
            push_str(out, "&lt;");
        } else if c == '>' {
            push_str(out, "&gt;");
        } else if c == '"' {
            push_str(out, "&quot;");
        } else {
            push_char(out, c);
        }
        i = i + 1;
    }
    assert(v@.subrange(0, v@.len() as int) == v@);
}

/// A value escaped as HTML text.
pub fn escaped_string(value: &str) -> (r: String)
    ensures
        r@ == escape_html(value@),
{
    let mut out = String::new();
    push_escaped_html(&mut out, value);
    assert(Seq::<char>::empty() + escape_html(value@) == escape_html(value@));
    out
}

/// A value used as HTML as it is.
pub fn raw_string(value: &str) -> (r: String)
    ensures
        r@ == value@,
{
    crate::text::to_owned(value)
}

/// `<span class="heroicon {classes}" style="--heroicon-url: url('…/{name}.svg')"{attrs}></span>`.
pub open spec fn icon_spec(name: Seq<char>, classes: Seq<char>, attrs: Seq<(Seq<char>, Seq<char>)>) -> Seq<char> {
    "<span class=\""@ + escape_attr_seq("heroicon "@ + classes) + "\" style=\""@ + escape_attr_seq(
        "--heroicon-url: url('https://api.iconify.design/heroicons/"@ + name + ".svg')"@,
    ) + "\""@ + render_entries(attrs) + "></span>"@
}

/// A heroicon span with extra attributes.
pub fn icon_with_attrs(name: &str, classes: &str, attrs: &HtmlAttrs) -> (r: String)
    ensures
        r@ == icon_spec(name@, classes@, attrs@),
{
    let mut class = String::new();
    push_str(&mut class, "heroicon ");
    push_str(&mut class, classes);
    let mut style = String::new();
    push_str(&mut style, "--heroicon-url: url('https://api.iconify.design/heroicons/");
    push_str(&mut style, name);
    push_str(&mut style, ".svg')");
    let mut out = String::new();
    push_str(&mut out, "<span class=\"");
    push_escaped_attr(&mut out, class.as_str());
    push_str(&mut out, "\" style=\"");
    push_escaped_attr(&mut out, style.as_str());
    push_str(&mut out, "\"");
    let a = attrs.as_string();
    push_str(&mut out, a.as_str());
    push_str(&mut out, "></span>");
    assert(Seq::<char>::empty() + "heroicon "@ == "heroicon "@);
    assert(Seq::<char>::empty() + "--heroicon-url: url('https://api.iconify.design/heroicons/"@
        == "--heroicon-url: url('https://api.iconify.design/heroicons/"@);
    assert(Seq::<char>::empty() + "<span class=\""@ == "<span class=\""@);
    out
}

/// A heroicon span.
pub fn icon(name: &str, classes: &str) -> (r: String)
    ensures
        r@ == icon_spec(name@, classes@, Seq::empty()),
{
    icon_with_attrs(name, classes, &HtmlAttrs::new())
}

/// `<div class="{class}">{body}</div>`, the class escaped and the body as it is.
pub open spec fn div_spec(class: Seq<char>, body: Seq<char>) -> Seq<char> {
    "<div class=\""@ + escape_html(class) + "\">"@ + body + "</div>"@
}

/// A `<div>` of class `class` around markup `body`.
pub fn div_class(class: &str, body: &str) -> (r: String)
    ensures
        r@ == div_spec(class@, body@),
{
    let mut out = String::new();
    push_str(&mut out, "<div class=\"");
    push_escaped_html(&mut out, class);
    push_str(&mut out, "\">");
    push_str(&mut out, body);
    push_str(&mut out, "</div>");
    assert(Seq::<char>::empty() + "<div class=\""@ == "<div class=\""@);
    out
}

/// A `<div>` of class `class` around the escaped text `value`.
pub fn div_text(class: &str, value: &str) -> (r: String)
    ensures
        r@ == div_spec(class@, escape_html(value@)),
{
    let body = escaped_string(value);
    div_class(class, body.as_str())
}

/// `prefix` and `classes` joined into one class list (`"{prefix}{classes}"`).
pub fn concat(prefix: &str, rest: &str) -> (r: String)
    ensures
        r@ == prefix@ + rest@,
{
    let mut out = crate::text::to_owned(prefix);
    push_str(&mut out, rest);
    out
}

} // verus!
