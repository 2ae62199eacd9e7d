//! Markdown events → HTML with Tailwind / daisyUI utility classes.
//!
//! Tailwind Preflight removes browser defaults, so bare `<h1>` / `<ul>` tags
//! render unstyled: every element is written with its utility classes. Text,
//! inline code and raw HTML are escaped; attribute values are attribute-escaped.
//!
//! The renderer is a state machine over a stream of CommonMark events (the
//! shape pulldown-cmark produces); `render_from` states what it writes.

use pulldown_cmark::HeadingLevel as CmarkLevel;
use pulldown_cmark::{CowStr, Event, Tag, TagEnd};
use vstd::prelude::*;

use crate::text::{
    decimal, escape_attr_seq, push_char, push_decimal, push_escaped_attr, push_str, starts_with,
};

verus! {

pub const P: &'static str = "my-2 max-w-full break-words text-base-content first:mt-0";
pub const UL: &'static str = "my-2 max-w-full list-disc space-y-1 pl-6 first:mt-0";
pub const OL: &'static str = "my-2 max-w-full list-decimal space-y-1 pl-6 first:mt-0";
pub const LI: &'static str = "my-0.5 max-w-full break-words";
pub const A: &'static str = "link link-primary break-all";
pub const CODE: &'static str = "whitespace-pre-wrap break-all rounded bg-base-200 px-1 py-0.5 font-mono text-sm";
pub const PRE: &'static str = "my-2 max-w-full whitespace-pre-wrap break-words rounded-md bg-base-200 p-3 font-mono text-sm first:mt-0";
pub const BLOCKQUOTE: &'static str = "my-2 max-w-full break-words border-l-4 border-base-300 pl-4 italic text-base-content/80 first:mt-0";
pub const HR: &'static str = "my-4 border-base-300";
pub const TABLE: &'static str = "table table-zebra table-sm my-2 w-full max-w-full first:mt-0";
pub const TH: &'static str = "text-left font-semibold break-words";
pub const IMG: &'static str = "my-2 max-w-full rounded-md";
pub const STRONG: &'static str = "font-bold";
pub const EM: &'static str = "italic";
pub const STRIKE: &'static str = "line-through";
pub const CHECKBOX: &'static str = "checkbox checkbox-sm mr-2 align-middle";

/// Heading level `h1` … `h6`.
#[derive(Debug, Clone, Copy, PartialEq, Eq, Structural)]
pub enum HeadingLevel {
    H1,
    H2,
    H3,
    H4,
    H5,
    H6,
}

/// The opening tag of a block or span.
#[derive(Debug, Clone, PartialEq, Eq)]
pub enum MdTag {
    Paragraph,
    /// A heading with its `{#id .class}` attributes.
    Heading { level: HeadingLevel, id: Option<String>, classes: Vec<String> },
    BlockQuote,
    CodeBlock,
    /// `None`: bullet list; `Some(n)`: ordered list starting at `n`.
    List(Option<u64>),
    Item,
    Table,
    TableHead,
    TableRow,
    TableCell,
    Emphasis,
    Strong,
    Strikethrough,
    Link { dest_url: String, title: String },
    Image { dest_url: String, title: String },
    /// Tags that render nothing (HTML blocks, footnotes, metadata, definition
    /// lists, super- and subscript).
    Other,
}

/// The closing tag of a block or span.
#[derive(Debug, Clone, Copy, PartialEq, Eq, Structural)]
pub enum MdTagEnd {
    Paragraph,
    Heading(HeadingLevel),
    BlockQuote,
    CodeBlock,
    /// `true` for an ordered list.
    List(bool),
    Item,
    Table,
    TableHead,
    TableRow,
    TableCell,
    Emphasis,
    Strong,
    Strikethrough,
    Link,
    Image,
    Other,
}

/// One event of a parsed markdown document.
#[derive(Debug, Clone, PartialEq, Eq)]
pub enum MdEvent {
    Start(MdTag),
    End(MdTagEnd),
    Text(String),
    Code(String),
    /// Block or inline raw HTML.
    Html(String),
    SoftBreak,
    HardBreak,
    Rule,
    TaskListMarker(bool),
    /// Events that render nothing (footnote references, math).
    Other,
}

/// The tag name `h1` … `h6`.
pub open spec fn heading_tag_spec(level: HeadingLevel) -> Seq<char> {
    match level {
        HeadingLevel::H1 => "h1"@,
        HeadingLevel::H2 => "h2"@,
        HeadingLevel::H3 => "h3"@,
        HeadingLevel::H4 => "h4"@,
        HeadingLevel::H5 => "h5"@,
        HeadingLevel::H6 => "h6"@,
    }
}

/// The tag name of a heading level.
pub fn heading_tag(level: HeadingLevel) -> (r: &'static str)
    ensures
        r@ == heading_tag_spec(level),
{
    match level {
        HeadingLevel::H1 => "h1",
        HeadingLevel::H2 => "h2",
        HeadingLevel::H3 => "h3",
        HeadingLevel::H4 => "h4",
        HeadingLevel::H5 => "h5",
        HeadingLevel::H6 => "h6",
    }
}

/// The utility classes of a heading level (`h5` and `h6` share theirs).
pub open spec fn heading_class_spec(level: HeadingLevel) -> Seq<char> {
    match level {
        HeadingLevel::H1 => "mt-6 mb-2 text-2xl font-bold text-base-content first:mt-0"@,
        HeadingLevel::H2 => "mt-5 mb-2 text-xl font-semibold text-base-content first:mt-0"@,
        HeadingLevel::H3 => "mt-4 mb-2 text-lg font-semibold text-base-content first:mt-0"@,
        HeadingLevel::H4 => "mt-3 mb-1 text-base font-semibold text-base-content first:mt-0"@,
        _ => "mt-3 mb-1 text-sm font-semibold text-base-content first:mt-0"@,
    }
}

/// The utility classes of a heading.
pub fn heading_class(level: HeadingLevel) -> (r: &'static str)
    ensures
        r@ == heading_class_spec(level),
{
    match level {
        HeadingLevel::H1 => "mt-6 mb-2 text-2xl font-bold text-base-content first:mt-0",
        HeadingLevel::H2 => "mt-5 mb-2 text-xl font-semibold text-base-content first:mt-0",
        HeadingLevel::H3 => "mt-4 mb-2 text-lg font-semibold text-base-content first:mt-0",
        HeadingLevel::H4 => "mt-3 mb-1 text-base font-semibold text-base-content first:mt-0",
        _ => "mt-3 mb-1 text-sm font-semibold text-base-content first:mt-0",
    }
}

/// Escape of one text character: `&`, `<`, `>` become entities.
pub open spec fn escape_text_char(c: char) -> Seq<char> {
    if c == '&' {
        "&amp;"@
    } else if c == '<' {
        "&lt;"@
    } else if c == '>' {
        "&gt;"@
    } else {
        seq![c]
    }
}

/// `s` escaped for HTML text content.
pub open spec fn escape_text(s: Seq<char>) -> Seq<char>
    decreases s.len(),
{
    if s.len() == 0 {
        seq![]
    } else {
        escape_text(s.drop_last()) + escape_text_char(s.last())
    }
}

/// `<tag class="class">`.
pub open spec fn open_tag(tag: Seq<char>, class: Seq<char>) -> Seq<char> {
    "<"@ + tag + " class=\""@ + class + "\">"@
}

/// ` name="escaped value"`.
pub open spec fn attr_text(name: Seq<char>, value: Seq<char>) -> Seq<char> {
    " "@ + name + "=\""@ + escape_attr_seq(value) + "\""@
}

/// Each class preceded by a space.
pub open spec fn extra_classes(classes: Seq<String>) -> Seq<char>
    decreases classes.len(),
{
    if classes.len() == 0 {
        seq![]
    } else {
        extra_classes(classes.drop_last()) + seq![' '] + classes.last()@
    }
}

/// The opening tag of a heading.
pub open spec fn heading_open(level: HeadingLevel, id: Option<String>, classes: Seq<String>) -> Seq<char> {
    "<"@ + heading_tag_spec(level) + " class=\""@ + escape_attr_seq(heading_class_spec(level) + extra_classes(classes))
        + "\""@ + (match id {
        Some(i) => attr_text("id"@, i@),
        None => seq![],
    }) + ">"@
}

/// The opening tag of an ordered list starting at `start` (`start` shown unless 1).
pub open spec fn ordered_list_open(start: u64) -> Seq<char> {
    "<ol class=\""@ + OL@ + "\""@ + (if start != 1 {
        " start=\""@ + decimal(start as nat) + "\""@
    } else {
        seq![]
    }) + ">"@
}

/// A link to an absolute `http(s)` URL opens in a new tab.
pub open spec fn is_external_url(url: Seq<char>) -> bool {
    starts_with(url, "http://"@) || starts_with(url, "https://"@)
}

/// The opening `<a>` of a link.
pub open spec fn link_open(dest_url: Seq<char>, title: Seq<char>) -> Seq<char> {
    "<a class=\""@ + A@ + "\" href=\""@ + escape_attr_seq(dest_url) + "\""@
        + (if title.len() > 0 { attr_text("title"@, title) } else { seq![] })
        + (if is_external_url(dest_url) { " target=\"_blank\" rel=\"noopener noreferrer\""@ } else { seq![] })
        + ">"@
}

/// The `<img>` written when an image ends.
pub open spec fn image_tag(src: Seq<char>, alt: Seq<char>, title: Seq<char>) -> Seq<char> {
    "<img class=\""@ + IMG@ + "\" src=\""@ + escape_attr_seq(src) + "\" alt=\""@ + escape_attr_seq(alt) + "\""@
        + (if title.len() > 0 { attr_text("title"@, title) } else { seq![] })
        + ">"@
}

/// A task-list checkbox.
pub open spec fn checkbox_tag(checked: bool) -> Seq<char> {
    "<input type=\"checkbox\" disabled class=\""@ + CHECKBOX@ + "\""@ + (if checked { " checked"@ } else { seq![] }) + ">"@
}

/// What the renderer remembers between events.
pub struct RenderState {
    /// Inside a table's header row (cells are `<th>`).
    pub in_table_head: bool,
    /// Inside an image: text goes to its `alt`.
    pub in_image: bool,
    pub image_src: Seq<char>,
    pub image_title: Seq<char>,
    pub image_alt: Seq<char>,
}

/// The state before the first event.
pub open spec fn initial_state() -> RenderState {
    RenderState { in_table_head: false, in_image: false, image_src: seq![], image_title: seq![], image_alt: seq![] }
}

/// The state after an opening tag, and the HTML it writes.
pub open spec fn start_step(st: RenderState, tag: MdTag) -> (RenderState, Seq<char>) {
    match tag {
        MdTag::Paragraph => (st, open_tag("p"@, P@)),
        MdTag::Heading { level, id, classes } => (st, heading_open(level, id, classes@)),
        MdTag::BlockQuote => (st, open_tag("blockquote"@, BLOCKQUOTE@)),
        MdTag::CodeBlock => (st, open_tag("pre"@, PRE@) + "<code>"@),
        MdTag::List(None) => (st, open_tag("ul"@, UL@)),
        MdTag::List(Some(start)) => (st, ordered_list_open(start)),
        MdTag::Item => (st, open_tag("li"@, LI@)),
        MdTag::Table => (st, open_tag("table"@, TABLE@)),
        MdTag::TableHead => (
            RenderState { in_table_head: true, ..st },
            "<thead><tr>"@,
        ),
        MdTag::TableRow => (st, if st.in_table_head { seq![] } else { "<tr>"@ }),
        MdTag::TableCell => (st, if st.in_table_head { open_tag("th"@, TH@) } else { "<td>"@ }),
        MdTag::Emphasis => (st, open_tag("em"@, EM@)),
        MdTag::Strong => (st, open_tag("strong"@, STRONG@)),
        MdTag::Strikethrough => (st, open_tag("del"@, STRIKE@)),
        MdTag::Link { dest_url, title } => (st, link_open(dest_url@, title@)),
        MdTag::Image { dest_url, title } => (
            RenderState {
                in_table_head: st.in_table_head,
                in_image: true,
                image_src: dest_url@,
                image_title: title@,
                image_alt: seq![],
            },
            seq![],
        ),
        MdTag::Other => (st, seq![]),
    }
}

/// The state after a closing tag, and the HTML it writes.
pub open spec fn end_step(st: RenderState, tag: MdTagEnd) -> (RenderState, Seq<char>) {
    match tag {
        MdTagEnd::Paragraph => (st, "</p>"@),
        MdTagEnd::Heading(level) => (st, "</"@ + heading_tag_spec(level) + ">"@),
        MdTagEnd::BlockQuote => (st, "</blockquote>"@),
        MdTagEnd::CodeBlock => (st, "</code></pre>"@),
        MdTagEnd::List(ordered) => (st, if ordered { "</ol>"@ } else { "</ul>"@ }),
        MdTagEnd::Item => (st, "</li>"@),
        MdTagEnd::Table => (st, "</tbody></table>"@),
        MdTagEnd::TableHead => (
            RenderState { in_table_head: false, ..st },
            "</tr></thead><tbody>"@,
        ),
        MdTagEnd::TableRow => (st, if st.in_table_head { seq![] } else { "</tr>"@ }),
        MdTagEnd::TableCell => (st, if st.in_table_head { "</th>"@ } else { "</td>"@ }),
        MdTagEnd::Emphasis => (st, "</em>"@),
        MdTagEnd::Strong => (st, "</strong>"@),
        MdTagEnd::Strikethrough => (st, "</del>"@),
        MdTagEnd::Link => (st, "</a>"@),
        MdTagEnd::Image => (
            RenderState {
                in_table_head: st.in_table_head,
                in_image: false,
                image_src: seq![],
                image_title: seq![],
                image_alt: seq![],
            },
            image_tag(st.image_src, st.image_alt, st.image_title),
        ),
        MdTagEnd::Other => (st, seq![]),
    }
}

/// The state after any event, and the HTML it writes.
pub open spec fn step(st: RenderState, ev: MdEvent) -> (RenderState, Seq<char>) {
    match ev {
        MdEvent::Start(tag) => start_step(st, tag),
        MdEvent::End(tag) => end_step(st, tag),
        MdEvent::Text(t) => if st.in_image {
            (RenderState { image_alt: st.image_alt + t@, ..st }, seq![])
        } else {
            (st, escape_text(t@))
        },
        MdEvent::Code(t) => if st.in_image {
            (RenderState { image_alt: st.image_alt + t@, ..st }, seq![])
        } else {
            (st, open_tag("code"@, CODE@) + escape_text(t@) + "</code>"@)
        },
        MdEvent::Html(h) => (st, escape_text(h@)),
        MdEvent::SoftBreak => (st, seq!['\n']),
        MdEvent::HardBreak => (st, "<br>"@),
        MdEvent::Rule => (st, "<hr class=\""@ + HR@ + "\">"@),
        MdEvent::TaskListMarker(checked) => (st, checkbox_tag(checked)),
        MdEvent::Other => (st, seq![]),
    }
}

/// The HTML written for `events` from state `st` on.
pub open spec fn render_from(st: RenderState, events: Seq<MdEvent>) -> Seq<char>
    decreases events.len(),
{
    if events.len() == 0 {
        seq![]
    } else {
        let (next, html) = step(st, events[0]);
        html + render_from(next, events.drop_first())
    }
}

/// The HTML of a whole event stream.
pub open spec fn render_events(events: Seq<MdEvent>) -> Seq<char> {
    render_from(initial_state(), events)
}

/// The renderer's state between events.
pub struct Renderer {
    in_table_head: bool,
    in_image: bool,
    image_src: String,
    image_title: String,
    image_alt: String,
}

impl View for Renderer {
    type V = RenderState;

    closed spec fn view(&self) -> RenderState {
        RenderState {
            in_table_head: self.in_table_head,
            in_image: self.in_image,
            image_src: self.image_src@,
            image_title: self.image_title@,
            image_alt: self.image_alt@,
        }
    }
}

/// Append `s` escaped as HTML text.
pub fn push_escaped(out: &mut String, s: &str)
    ensures
        final(out)@ == old(out)@ + escape_text(s@),
{
    let v = crate::text::chars_of(s);
    let ghost start = out@;
    let mut i: usize = 0;
    while i < v.len()
        invariant
            i <= v.len(),
            v@ == s@,
            out@ == start + escape_text(v@.subrange(0, i as int)),
        decreases v.len() - i,
    {
        let c = v[i];
        assert(v@.subrange(0, i + 1).drop_last() == v@.subrange(0, i as int));
        if c == '&' {
            push_str(out, "&amp;");
        } else if c == '<' {
            push_str(out, "&lt;");
        } else if c == '>' {
            push_str(out, "&gt;");
        } else {
            push_char(out, c);
        }
        i = i + 1;
    }
    assert(v@.subrange(0, v@.len() as int) == v@);
}

/// Append `<tag class="class">`.
pub fn push_open(out: &mut String, tag: &str, class: &str)
    ensures
        final(out)@ == old(out)@ + open_tag(tag@, class@),
{
    push_str(out, "<");
    push_str(out, tag);
    push_str(out, " class=\"");
    push_str(out, class);
    push_str(out, "\">");
}

/// Append ` name="escaped value"`.
fn push_attr(out: &mut String, name: &str, value: &str)
    ensures
        final(out)@ == old(out)@ + attr_text(name@, value@),
{
    push_str(out, " ");
    push_str(out, name);
    push_str(out, "=\"");
    push_escaped_attr(out, value);
    push_str(out, "\"");
}

/// Whether `s` begins with the `str` `p`.
fn str_has_prefix(s: &str, p: &str) -> (r: bool)
    ensures
        r == starts_with(s@, p@),
{
    let v = crate::text::chars_of(s);
    crate::text::str_starts_with(&v, p)
}

/// Append the opening tag of a heading.
fn push_heading_open(out: &mut String, level: HeadingLevel, id: &Option<String>, classes: &Vec<String>)
    ensures
        final(out)@ == old(out)@ + heading_open(level, *id, classes@),
{
    let mut class = crate::text::to_owned(heading_class(level));
    let mut k: usize = 0;
    while k < classes.len()
        invariant
            k <= classes.len(),
            class@ == heading_class_spec(level) + extra_classes(classes@.take(k as int)),
        decreases classes.len() - k,
    {
        push_char(&mut class, ' ');
        push_str(&mut class, classes[k].as_str());
        assert(classes@.take(k + 1).drop_last() == classes@.take(k as int));
        k = k + 1;
    }
    assert(classes@.take(classes@.len() as int) == classes@);
    push_str(out, "<");
    push_str(out, heading_tag(level));
    push_str(out, " class=\"");
    push_escaped_attr(out, class.as_str());
    push_str(out, "\"");
    match id {
        Some(i) => push_attr(out, "id", i.as_str()),
        None => {},
    }
    push_str(out, ">");
}

/// Append the opening tag of an ordered list.
fn push_ordered_open(out: &mut String, start: u64)
    ensures
        final(out)@ == old(out)@ + ordered_list_open(start),
{
    push_str(out, "<ol class=\"");
    push_str(out, OL);
    push_str(out, "\"");
    if start != 1 {
        push_str(out, " start=\"");
        push_decimal(out, start);
        push_str(out, "\"");
    }
    push_str(out, ">");
}

/// Append the opening `<a>` of a link.
fn push_link_open(out: &mut String, dest_url: &str, title: &str)
    ensures
        final(out)@ == old(out)@ + link_open(dest_url@, title@),
{
    push_str(out, "<a class=\"");
    push_str(out, A);
    push_str(out, "\" href=\"");
    push_escaped_attr(out, dest_url);
    push_str(out, "\"");
    if !title.is_empty() {
        push_attr(out, "title", title);
    }
    if str_has_prefix(dest_url, "http://") || str_has_prefix(dest_url, "https://") {
        push_str(out, " target=\"_blank\" rel=\"noopener noreferrer\"");
    }
    push_str(out, ">");
}

impl Renderer {
    /// A renderer before any event.
    pub fn new() -> (r: Renderer)
        ensures
            r@ == initial_state(),
    {
        Renderer {
            in_table_head: false,
            in_image: false,
            image_src: String::new(),
            image_title: String::new(),
            image_alt: String::new(),
        }
    }

    /// Write the HTML of an opening tag.
    fn start(&mut self, out: &mut String, tag: &MdTag)
        ensures
            (final(self)@, final(out)@) == (start_step(old(self)@, *tag).0, old(out)@ + start_step(old(self)@, *tag).1),
    {
        match tag {
            MdTag::Paragraph => push_open(out, "p", P),
            MdTag::Heading { level, id, classes } => push_heading_open(out, *level, id, classes),
            MdTag::BlockQuote => push_open(out, "blockquote", BLOCKQUOTE),
            MdTag::CodeBlock => {
                push_open(out, "pre", PRE);
                push_str(out, "<code>");
            },
            MdTag::List(None) => push_open(out, "ul", UL),
            MdTag::List(Some(start)) => push_ordered_open(out, *start),
            MdTag::Item => push_open(out, "li", LI),
            MdTag::Table => push_open(out, "table", TABLE),
            MdTag::TableHead => {
                self.in_table_head = true;
                push_str(out, "<thead><tr>");
            },
            MdTag::TableRow => {
                if !self.in_table_head {
                    push_str(out, "<tr>");
                }
            },
            MdTag::TableCell => {
                if self.in_table_head {
                    push_open(out, "th", TH);
                } else {
                    push_str(out, "<td>");
                }
            },
            MdTag::Emphasis => push_open(out, "em", EM),
            MdTag::Strong => push_open(out, "strong", STRONG),
            MdTag::Strikethrough => push_open(out, "del", STRIKE),
            MdTag::Link { dest_url, title } => push_link_open(out, dest_url.as_str(), title.as_str()),
            MdTag::Image { dest_url, title } => {
                self.in_image = true;
                self.image_src = crate::text::to_owned(dest_url.as_str());
                self.image_title = crate::text::to_owned(title.as_str());
                self.image_alt = String::new();
            },
            MdTag::Other => {},
        }
    }

    /// Write the HTML of a closing tag.
    fn end(&mut self, out: &mut String, tag: MdTagEnd)
        ensures
            (final(self)@, final(out)@) == (end_step(old(self)@, tag).0, old(out)@ + end_step(old(self)@, tag).1),
    {
        match tag {
            MdTagEnd::Paragraph => push_str(out, "</p>"),
            MdTagEnd::Heading(level) => {
                push_str(out, "</");
                push_str(out, heading_tag(level));
                push_str(out, ">");
            },
            MdTagEnd::BlockQuote => push_str(out, "</blockquote>"),
            MdTagEnd::CodeBlock => push_str(out, "</code></pre>"),
            MdTagEnd::List(ordered) => {
                if ordered {
                    push_str(out, "</ol>");
                } else {
                    push_str(out, "</ul>");
                }
            },
            MdTagEnd::Item => push_str(out, "</li>"),
            MdTagEnd::Table => push_str(out, "</tbody></table>"),
            MdTagEnd::TableHead => {
                self.in_table_head = false;
                push_str(out, "</tr></thead><tbody>");
            },
            MdTagEnd::TableRow => {
                if !self.in_table_head {
                    push_str(out, "</tr>");
                }
            },
            MdTagEnd::TableCell => {
                if self.in_table_head {
                    push_str(out, "</th>");
                } else {
                    push_str(out, "</td>");
                }
            },
            MdTagEnd::Emphasis => push_str(out, "</em>"),
            MdTagEnd::Strong => push_str(out, "</strong>"),
            MdTagEnd::Strikethrough => push_str(out, "</del>"),
            MdTagEnd::Link => push_str(out, "</a>"),
            MdTagEnd::Image => {
                push_str(out, "<img class=\"");
                push_str(out, IMG);
                push_str(out, "\" src=\"");
                push_escaped_attr(out, self.image_src.as_str());
                push_str(out, "\" alt=\"");
                push_escaped_attr(out, self.image_alt.as_str());
                push_str(out, "\"");
                if !self.image_title.as_str().is_empty() {
                    push_attr(out, "title", self.image_title.as_str());
                }
                push_str(out, ">");
                self.in_image = false;
                self.image_src = String::new();
                self.image_title = String::new();
                self.image_alt = String::new();
            },
            MdTagEnd::Other => {},
        }
    }

    /// Write the HTML of one event.
    pub fn push_event(&mut self, out: &mut String, ev: &MdEvent)
        ensures
            (final(self)@, final(out)@) == (step(old(self)@, *ev).0, old(out)@ + step(old(self)@, *ev).1),
    {
        match ev {
            MdEvent::Start(tag) => self.start(out, tag),
            MdEvent::End(tag) => self.end(out, *tag),
            MdEvent::Text(t) => {
                if self.in_image {
                    push_str(&mut self.image_alt, t.as_str());
                } else {
                    push_escaped(out, t.as_str());
                }
            },
            MdEvent::Code(t) => {
                if self.in_image {
                    push_str(&mut self.image_alt, t.as_str());
                } else {
                    push_open(out, "code", CODE);
                    push_escaped(out, t.as_str());
                    push_str(out, "</code>");
                }
            },
            MdEvent::Html(h) => push_escaped(out, h.as_str()),
            MdEvent::SoftBreak => push_char(out, '\n'),
            MdEvent::HardBreak => push_str(out, "<br>"),
            MdEvent::Rule => {
                push_str(out, "<hr class=\"");
                push_str(out, HR);
                push_str(out, "\">");
            },
            MdEvent::TaskListMarker(checked) => {
                push_str(out, "<input type=\"checkbox\" disabled class=\"");
                push_str(out, CHECKBOX);
                push_str(out, "\"");
                if *checked {
                    push_str(out, " checked");
                }
                push_str(out, ">");
            },
            MdEvent::Other => {},
        }
    }
}

/// Append the HTML of a whole event stream, each element with its utility classes.
pub fn push_markdown_html(out: &mut String, events: &Vec<MdEvent>)
    ensures
        final(out)@ == old(out)@ + render_events(events@),
{
    let mut r = Renderer::new();
    let mut i: usize = 0;
    let ghost start = out@;
    assert(events@.subrange(0, events@.len() as int) == events@);
    while i < events.len()
        invariant
            i <= events.len(),
            start + render_events(events@)
                == out@ + render_from(r@, events@.subrange(i as int, events@.len() as int)),
        decreases events.len() - i,
    {
        let ghost rest = events@.subrange(i as int, events@.len() as int);
        let ghost before = out@;
        let ghost st = r@;
        assert(rest[0] == events@[i as int]);
        assert(rest.drop_first() == events@.subrange(i + 1, events@.len() as int));
        r.push_event(out, &events[i]);
        proof {
            let (next, html) = step(st, rest[0]);
            assert(render_from(st, rest) == html + render_from(next, rest.drop_first()));
            assert(before + (html + render_from(next, rest.drop_first())) == (before + html) + render_from(next, rest.drop_first()));
        }
        i = i + 1;
    }
    assert(events@.subrange(i as int, events@.len() as int) =~= Seq::<MdEvent>::empty());
}

/// The HTML of a whole event stream.
pub fn render_markdown_events(events: &Vec<MdEvent>) -> (r: String)
    ensures
        r@ == render_events(events@),
{
    let mut out = String::new();
    push_markdown_html(&mut out, events);
    assert(Seq::<char>::empty() + render_events(events@) == render_events(events@));
    out
}

// ---------------------------------------------------------------------------
// Parsing with pulldown-cmark
// ---------------------------------------------------------------------------

/// pulldown-cmark's parser event.
#[verifier::external_type_specification]
#[verifier::external_body]
pub struct ExCmarkEvent<'a>(Event<'a>);

/// pulldown-cmark's opening tag.
#[verifier::external_type_specification]
#[verifier::external_body]
pub struct ExCmarkTag<'a>(Tag<'a>);

/// pulldown-cmark's closing tag.
#[verifier::external_type_specification]
#[verifier::external_body]
pub struct ExCmarkTagEnd(TagEnd);

/// pulldown-cmark's heading level.
#[verifier::external_type_specification]
#[verifier::external_body]
pub struct ExCmarkHeadingLevel(CmarkLevel);

/// pulldown-cmark's copy-on-write string.
#[verifier::external_type_specification]
#[verifier::external_body]
pub struct ExCmarkCowStr<'a>(CowStr<'a>);

/// The events pulldown-cmark's parser yields for `md` (heading attributes,
/// strikethrough, tables and task lists enabled), each as a [`MdEvent`].
pub uninterp spec fn cmark_events(md: Seq<char>) -> Seq<MdEvent>;

/// A pulldown-cmark heading level as a [`HeadingLevel`], one for one.
#[verifier::external_body]
fn cmark_level(l: CmarkLevel) -> HeadingLevel {
    match l {
        CmarkLevel::H1 => HeadingLevel::H1,
        CmarkLevel::H2 => HeadingLevel::H2,
        CmarkLevel::H3 => HeadingLevel::H3,
        CmarkLevel::H4 => HeadingLevel::H4,
        CmarkLevel::H5 => HeadingLevel::H5,
        CmarkLevel::H6 => HeadingLevel::H6,
    }
}

/// A pulldown-cmark heading's level, `{#id}` and `{.class}`es as an [`MdTag`],
/// its strings copied out.
#[verifier::external_body]
fn cmark_heading<'a>(
    level: CmarkLevel,
    id: Option<CowStr<'a>>,
    classes: Vec<CowStr<'a>>,
) -> MdTag {
    let mut cs = Vec::new();
    for c in classes {
        cs.push(c.into_string());
    }
    let id = match id {
        Some(s) => Some(s.into_string()),
        None => None,
    };
    MdTag::Heading { level: cmark_level(level), id, classes: cs }
}

/// The inline pulldown-cmark opening tags as [`MdTag`]s, one variant for one,
/// strings copied out; any other tag is `Other`.
#[verifier::external_body]
fn cmark_inline_tag(tag: Tag<'_>) -> MdTag {
    match tag {
        Tag::Emphasis => MdTag::Emphasis,
        Tag::Strong => MdTag::Strong,
        Tag::Strikethrough => MdTag::Strikethrough,
        Tag::Link { dest_url, title, .. } => {
            MdTag::Link { dest_url: dest_url.into_string(), title: title.into_string() }
        },
        Tag::Image { dest_url, title, .. } => {
            MdTag::Image { dest_url: dest_url.into_string(), title: title.into_string() }
        },
        _ => MdTag::Other,
    }
}

/// A pulldown-cmark opening tag as an [`MdTag`], one variant for one (the
/// inline ones by [`cmark_inline_tag`]).
#[verifier::external_body]
fn cmark_tag(tag: Tag<'_>) -> MdTag {
    match tag {
        Tag::Paragraph => MdTag::Paragraph,
        Tag::Heading { level, id, classes, .. } => cmark_heading(level, id, classes),
        Tag::BlockQuote(_) => MdTag::BlockQuote,
        Tag::CodeBlock(_) => MdTag::CodeBlock,
        Tag::List(n) => MdTag::List(n),
        Tag::Item => MdTag::Item,
        Tag::Table(_) => MdTag::Table,
        Tag::TableHead => MdTag::TableHead,
        Tag::TableRow => MdTag::TableRow,
        Tag::TableCell => MdTag::TableCell,
        other => cmark_inline_tag(other),
    }
}

/// The inline pulldown-cmark closing tags as [`MdTagEnd`]s, one variant for
/// one; any other is `Other`.
#[verifier::external_body]
fn cmark_inline_end(tag: TagEnd) -> MdTagEnd {
    match tag {
        TagEnd::Emphasis => MdTagEnd::Emphasis,
        TagEnd::Strong => MdTagEnd::Strong,
        TagEnd::Strikethrough => MdTagEnd::Strikethrough,
        TagEnd::Link => MdTagEnd::Link,
        TagEnd::Image => MdTagEnd::Image,
        _ => MdTagEnd::Other,
    }
}

/// A pulldown-cmark closing tag as an [`MdTagEnd`], one variant for one (the
/// inline ones by [`cmark_inline_end`]).
#[verifier::external_body]
fn cmark_tag_end(tag: TagEnd) -> MdTagEnd {
    match tag {
        TagEnd::Paragraph => MdTagEnd::Paragraph,
        TagEnd::Heading(l) => MdTagEnd::Heading(cmark_level(l)),
        TagEnd::BlockQuote(_) => MdTagEnd::BlockQuote,
        TagEnd::CodeBlock => MdTagEnd::CodeBlock,
        TagEnd::List(ordered) => MdTagEnd::List(ordered),
        TagEnd::Item => MdTagEnd::Item,
        TagEnd::Table => MdTagEnd::Table,
        TagEnd::TableHead => MdTagEnd::TableHead,
        TagEnd::TableRow => MdTagEnd::TableRow,
        TagEnd::TableCell => MdTagEnd::TableCell,
        other => cmark_inline_end(other),
    }
}

/// A pulldown-cmark event as an [`MdEvent`], one variant for one, strings
/// copied out (raw block and inline HTML alike as `Html`); any other is `Other`.
#[verifier::external_body]
fn cmark_event(e: Event<'_>) -> MdEvent {
    match e {
        Event::Start(tag) => MdEvent::Start(cmark_tag(tag)),
        Event::End(tag) => MdEvent::End(cmark_tag_end(tag)),
        Event::Text(t) => MdEvent::Text(t.into_string()),
        Event::Code(t) => MdEvent::Code(t.into_string()),
        Event::Html(h) | Event::InlineHtml(h) => MdEvent::Html(h.into_string()),
        Event::SoftBreak => MdEvent::SoftBreak,
        Event::HardBreak => MdEvent::HardBreak,
        Event::Rule => MdEvent::Rule,
        Event::TaskListMarker(checked) => MdEvent::TaskListMarker(checked),
        _ => MdEvent::Other,
    }
}

/// `pulldown_cmark::Parser::new_ext` over `md` with heading attributes,
/// strikethrough, tables and task lists enabled, each event converted one for
/// one. Claimed: the events are [`cmark_events`] of `md` (the parser's output
/// depends on the text and the options alone).
#[verifier::external_body]
fn cmark_parse_events(md: &str) -> (r: Vec<MdEvent>)
    ensures
        r@ == cmark_events(md@),
{
    let mut options = pulldown_cmark::Options::empty();
    options.insert(pulldown_cmark::Options::ENABLE_HEADING_ATTRIBUTES);
    options.insert(pulldown_cmark::Options::ENABLE_STRIKETHROUGH);
    options.insert(pulldown_cmark::Options::ENABLE_TABLES);
    options.insert(pulldown_cmark::Options::ENABLE_TASKLISTS);
    let mut events = Vec::new();
    for e in pulldown_cmark::Parser::new_ext(md, options) {
        events.push(cmark_event(e));
    }
    events
}

/// Parse markdown and render it to HTML, each element with its utility classes.
pub fn render_markdown(md: &str) -> (r: String)
    ensures
        r@ == render_events(cmark_events(md@)),
{
    let events = cmark_parse_events(md);
    render_markdown_events(&events)
}

} // verus!
