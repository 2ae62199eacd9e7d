//! Page layout containers.

use vstd::prelude::*;

use crate::html::{icon, icon_spec};
use crate::swap::{app_layout_history_attrs, AppLayoutKey, MainContentKey, SwapKey};
use crate::text::{push_char, push_str, to_owned, trim, trim_str};

verus! {

/// Markup of the `<main id="main-content">` column (what sidebar menu navigation swaps).
/// Built only by [`layout_main`].
pub struct MainContentHtml(String);

impl View for MainContentHtml {
    type V = Seq<char>;

    closed spec fn view(&self) -> Seq<char> {
        self.0@
    }
}

impl MainContentHtml {
    /// The markup.
    pub fn into_markup(self) -> (r: String)
        ensures
            r@ == self@,
    {
        self.0
    }
}

/// Markup of the whole app layout region (dashboard tiles, form POST, boosted
/// navigation). Built by [`layout_sidebar`] or [`app_layout_pane`].
pub struct AppLayoutHtml(String);

impl View for AppLayoutHtml {
    type V = Seq<char>;

    closed spec fn view(&self) -> Seq<char> {
        self.0@
    }
}

impl AppLayoutHtml {
    /// The markup.
    pub fn into_markup(self) -> (r: String)
        ensures
            r@ == self@,
    {
        self.0
    }
}

/// Marker for the centred card layout.
pub struct LayoutCard;

/// Marker for the simple padded layout.
pub struct LayoutSimple;

/// Arguments of [`layout_sidebar`].
pub struct LayoutSidebar {
    pub sidebar: String,
    /// Trail rendered after the sidebar toggle in [`layout_main`].
    pub breadcrumbs: String,
    pub content: String,
}

/// Arguments of [`layout_main`] (main column chrome and body).
pub struct LayoutMain {
    /// Trail rendered after the sidebar toggle; empty means the toggle only.
    pub breadcrumbs: String,
    pub content: String,
}

/// Arguments of [`layout_topbar`].
pub struct LayoutTopbar {
    pub topbar_items: String,
    pub content: String,
    pub has_sidebar: bool,
    pub x_data: Option<&'static str>,
    pub right_panels: String,
}

/// Alpine state for the collapsible left sidebar drawer.
pub const LEFT_SIDEBAR_X_DATA: &'static str = "{\n    showLeft: window.innerWidth >= 768,\n    isMobile: window.innerWidth < 768,\n    messages: [],\n    init() {\n        const mq = window.matchMedia('(max-width: 767px)');\n        const onChange = () => {\n            this.isMobile = mq.matches;\n            this.showLeft = !this.isMobile;\n        };\n        mq.addEventListener('change', onChange);\n        this.$el.addEventListener('htmx:after-swap', (event) => {\n            const target = event.detail?.target;\n            if (this.isMobile && target && target.id === 'main-content') {\n                this.showLeft = false;\n            }\n        });\n    },\n    toggleLeft() {\n        this.showLeft = !this.showLeft;\n    },\n    closeLeft() {\n        if (this.isMobile) this.showLeft = false;\n    }\n}";

/// Alpine state for the collapsible, resizable right drawer.
pub const RIGHT_SIDEBAR_X_DATA: &'static str = "{\n    showRight: $persist(true).as('right-sidebar-show'),\n    rightSidebarWidth: $persist(320).as('right-sidebar-width'),\n    isResizing: false,\n    toggleRight() {\n        this.showRight = !this.showRight;\n    },\n    startResize(e) {\n        e.preventDefault();\n        this.isResizing = true;\n        const startWidth = this.rightSidebarWidth;\n        const startX = e.clientX;\n        const onMouseMove = (moveEvent) => {\n            if (!this.isResizing) return;\n            const deltaX = moveEvent.clientX - startX;\n            let newWidth = startWidth - deltaX;\n            if (newWidth < 240) newWidth = 240;\n            if (newWidth > 600) newWidth = 600;\n            this.rightSidebarWidth = newWidth;\n        };\n        const onMouseUp = () => {\n            this.isResizing = false;\n            document.removeEventListener('mousemove', onMouseMove);\n            document.removeEventListener('mouseup', onMouseUp);\n        };\n        document.addEventListener('mousemove', onMouseMove);\n        document.addEventListener('mouseup', onMouseUp);\n    }\n}";

/// `s` with every `"` written as `&quot;`.
pub open spec fn quote_escape(s: Seq<char>) -> Seq<char>
    decreases s.len(),
{
    if s.len() == 0 {
        seq![]
    } else {
        quote_escape(s.drop_last()) + (if s.last() == '"' { "&quot;"@ } else { seq![s.last()] })
    }
}

/// Append `s` with every `"` written as `&quot;`.
pub fn push_quote_escaped(out: &mut String, s: &str)
    ensures
        final(out)@ == old(out)@ + quote_escape(s@),
{
    let v = crate::text::chars_of(s);
    let ghost start = out@;
    let mut i: usize = 0;
    while i < v.len()
        invariant
            i <= v.len(),
            v@ == s@,
            out@ == start + quote_escape(v@.subrange(0, i as int)),
        decreases v.len() - i,
    {
        assert(v@.subrange(0, i + 1).drop_last() == v@.subrange(0, i as int));
        if v[i] == '"' {
            push_str(out, "&quot;");
        } else {
            push_char(out, v[i]);
        }
        i = i + 1;
    }
    assert(v@.subrange(0, v@.len() as int) == v@);
}

/// `id="app-layout" hx-history-elt`.
pub open spec fn history_attrs() -> Seq<char> {
    "id=\""@ + AppLayoutKey::ID@ + "\" hx-history-elt"@
}

/// The button that opens and closes the right drawer.
pub const RIGHT_TOGGLE_OPEN: &'static str = "<button type=\"button\" class=\"btn btn-sm btn-square btn-ghost\" @click=\"toggleRight()\">";

/// Shown while the right drawer is closed.
pub const RIGHT_TOGGLE_CLOSED_ICON: &'static str = "<span x-show=\"!showRight\">";

/// Shown while the right drawer is open.
pub const RIGHT_TOGGLE_OPEN_ICON: &'static str = "<span x-show=\"showRight\">";

/// The toggle button of the right drawer.
pub open spec fn right_toggle_spec() -> Seq<char> {
    RIGHT_TOGGLE_OPEN@ + RIGHT_TOGGLE_CLOSED_ICON@ + icon_spec("bars-3-bottom-right"@, ""@, Seq::empty()) + "</span>"@
        + RIGHT_TOGGLE_OPEN_ICON@ + icon_spec("x-mark"@, ""@, Seq::empty()) + "</span></button>"@
}

fn right_sidebar_toggle_buttons() -> (r: String)
    ensures
        r@ == right_toggle_spec(),
{
    let mut out = to_owned(RIGHT_TOGGLE_OPEN);
    push_str(&mut out, RIGHT_TOGGLE_CLOSED_ICON);
    let a = icon("bars-3-bottom-right", "");
    push_str(&mut out, a.as_str());
    push_str(&mut out, "</span>");
    push_str(&mut out, RIGHT_TOGGLE_OPEN_ICON);
    let b = icon("x-mark", "");
    push_str(&mut out, b.as_str());
    push_str(&mut out, "</span></button>");
    out
}

/// Backdrop behind the right drawer on narrow screens.
pub const RIGHT_BACKDROP: &'static str = "<div class=\"xl:hidden absolute inset-0 bg-neutral-900/40 z-30 transition-opacity\" x-show=\"showRight\" x-transition:enter=\"transition ease-out duration-200\" x-transition:enter-start=\"opacity-0\" x-transition:enter-end=\"opacity-100\" x-transition:leave=\"transition ease-in duration-150\" x-transition:leave-start=\"opacity-100\" x-transition:leave-end=\"opacity-0\" @click=\"toggleRight()\"></div>";

/// Resize handle of the right drawer.
pub const RIGHT_HANDLE_OPEN: &'static str = "<div class=\"hidden xl:flex w-2 -mx-1 cursor-col-resize flex-none h-full relative z-50 items-center justify-center hover:bg-primary/20 active:bg-primary/30 transition-all duration-150 group\" x-show=\"showRight\" @mousedown=\"startResize($event)\" :class=\"isResizing ? 'bg-primary/20' : ''\">";

/// The line inside the resize handle, and the handle's end.
pub const RIGHT_HANDLE_LINE: &'static str = "<div class=\"w-[1px] h-full bg-base-300 group-hover:bg-primary group-active:bg-primary transition-colors duration-150\" :class=\"isResizing ? 'bg-primary' : ''\"></div></div>";

/// The opening of the right drawer.
pub const RIGHT_ASIDE_OPEN: &'static str = "<aside class=\"flex-none bg-base-100 flex flex-col h-full overflow-hidden absolute right-0 top-0 z-40 border-l border-base-300 shadow-2xl max-w-[85vw] sm:max-w-[400px] xl:static xl:border-l-0 xl:shadow-none xl:max-w-none\" x-show=\"showRight\" x-transition:enter=\"transition ease-out duration-200 transform\" x-transition:enter-start=\"translate-x-full\" x-transition:enter-end=\"translate-x-0\" x-transition:leave=\"transition ease-in duration-150 transform\" x-transition:leave-start=\"translate-x-0\" x-transition:leave-end=\"translate-x-full\" :style=\"'width: ' + rightSidebarWidth + 'px'\" style=\"width: 320px;\">";

/// The right drawer around `panel`.
pub open spec fn right_aside_spec(panel: Seq<char>) -> Seq<char> {
    RIGHT_BACKDROP@ + RIGHT_HANDLE_OPEN@ + RIGHT_HANDLE_LINE@ + RIGHT_ASIDE_OPEN@
        + "<div class=\"flex-1 overflow-hidden relative\"><div class=\"h-full overflow-y-auto p-0\">"@ + panel
        + "</div></div></aside>"@
}

fn right_sidebar_aside(panel: &str) -> (r: String)
    ensures
        r@ == right_aside_spec(panel@),
{
    let mut out = to_owned(RIGHT_BACKDROP);
    push_str(&mut out, RIGHT_HANDLE_OPEN);
    push_str(&mut out, RIGHT_HANDLE_LINE);
    push_str(&mut out, RIGHT_ASIDE_OPEN);
    push_str(&mut out, "<div class=\"flex-1 overflow-hidden relative\"><div class=\"h-full overflow-y-auto p-0\">");
    push_str(&mut out, panel);
    push_str(&mut out, "</div></div></aside>");
    out
}

/// The loading bar shared with the shell.
pub const LOADING_PROGRESS: &'static str = "<progress class=\"progress w-full fixed top-0 left-0 h-1 z-50\" id=\"global-loading-indicator\"></progress>";

/// A centred card holding the app layout region.
pub open spec fn layout_card_spec(children: Seq<char>) -> Seq<char> {
    "<div class=\"min-h-screen flex items-center justify-center bg-base-200\">"@ + LOADING_PROGRESS@
        + "<div class=\"card shadow-xl\"><div class=\"card-body\"><div "@ + history_attrs() + ">"@ + children
        + "</div></div></div></div>"@
}

/// Render the card layout.
pub fn layout_card(children: &str) -> (r: String)
    ensures
        r@ == layout_card_spec(children@),
{
    let mut out = to_owned("<div class=\"min-h-screen flex items-center justify-center bg-base-200\">");
    push_str(&mut out, LOADING_PROGRESS);
    push_str(&mut out, "<div class=\"card shadow-xl\"><div class=\"card-body\"><div ");
    let h = app_layout_history_attrs();
    push_str(&mut out, h.as_str());
    push_str(&mut out, ">");
    push_str(&mut out, children);
    push_str(&mut out, "</div></div></div></div>");
    out
}

/// A padded scrolling page holding the app layout region.
pub open spec fn layout_simple_spec(children: Seq<char>) -> Seq<char> {
    "<div class=\"size-full overflow-y-auto p-4\"><div "@ + history_attrs() + ">"@ + children + "</div></div>"@
}

/// Render the simple layout.
pub fn layout_simple(children: &str) -> (r: String)
    ensures
        r@ == layout_simple_spec(children@),
{
    let mut out = to_owned("<div class=\"size-full overflow-y-auto p-4\"><div ");
    let h = app_layout_history_attrs();
    push_str(&mut out, h.as_str());
    push_str(&mut out, ">");
    push_str(&mut out, children);
    push_str(&mut out, "</div></div>");
    out
}

/// The grid of the sidebar layout.
pub const SIDEBAR_GRID_OPEN: &'static str = "<div class=\"relative grid h-full transition-[grid-template-columns] duration-[400ms] ease-in\" :class=\"isMobile ? 'grid-cols-1' : (showLeft ? 'grid-cols-[250px_1fr]' : 'grid-cols-[0px_1fr]')\">";

/// The mobile backdrop of the left drawer.
pub const SIDEBAR_BACKDROP: &'static str = "<div x-show=\"isMobile && showLeft\" x-transition.opacity=\"\" @click=\"closeLeft()\" class=\"fixed inset-x-0 bottom-0 top-16 bg-black/50 z-40\"></div>";

/// The opening of the left drawer.
pub const SIDEBAR_ASIDE_OPEN: &'static str = "<aside class=\"bg-base-100 border-r border-base-300 overflow-hidden max-md:fixed max-md:left-0 max-md:top-16 max-md:bottom-0 max-md:z-50 max-md:w-[250px] max-md:shadow-xl max-md:transition-transform max-md:duration-300\" :class=\"isMobile && !showLeft ? 'max-md:-translate-x-full' : ''\">";

/// The sidebar toggle button of the main column.
pub const MAIN_TOGGLE_OPEN: &'static str = "<button type=\"button\" @click=\"toggleLeft()\" class=\"btn btn-sm btn-square shrink-0\">";

/// The flash message template of the main column.
pub const MAIN_MESSAGES: &'static str = "<template x-for=\"msg in messages\"><div class=\"alert shadow-lg mb-2\" :class=\"msg.tags == 'error' ? 'alert-error' : (msg.tags == 'success' ? 'alert-success' : 'alert-info')\"><div class=\"flex-1\"><span class=\"font-semibold\" x-text=\"msg.tags.charAt(0).toUpperCase() + msg.tags.slice(1) + ':'\"></span> <span x-text=\"msg.text\"></span></div></div></template>";

/// The main column: toggle, breadcrumbs, messages, content.
pub open spec fn layout_main_spec(breadcrumbs: Seq<char>, content: Seq<char>) -> Seq<char> {
    "<main id=\""@ + MainContentKey::ID@ + "\" class=\"overflow-y-auto p-4 relative h-full bg-base-100\">"@
        + "<div class=\"flex items-center gap-2 mb-2 min-w-0\">"@ + MAIN_TOGGLE_OPEN@ + icon_spec(
        "bars-3"@,
        ""@,
        Seq::empty(),
    ) + "</button>"@ + breadcrumbs + "</div><div class=\"messages mb-4\">"@ + MAIN_MESSAGES@ + "</div>"@ + content
        + "</main>"@
}

/// Render the main column.
pub fn layout_main(opts: LayoutMain) -> (r: MainContentHtml)
    ensures
        r@ == layout_main_spec(opts.breadcrumbs@, opts.content@),
{
    let mut out = to_owned("<main id=\"");
    push_str(&mut out, MainContentKey::ID);
    push_str(&mut out, "\" class=\"overflow-y-auto p-4 relative h-full bg-base-100\">");
    push_str(&mut out, "<div class=\"flex items-center gap-2 mb-2 min-w-0\">");
    push_str(&mut out, MAIN_TOGGLE_OPEN);
    let menu = icon("bars-3", "");
    push_str(&mut out, menu.as_str());
    push_str(&mut out, "</button>");
    push_str(&mut out, opts.breadcrumbs.as_str());
    push_str(&mut out, "</div><div class=\"messages mb-4\">");
    push_str(&mut out, MAIN_MESSAGES);
    push_str(&mut out, "</div>");
    push_str(&mut out, opts.content.as_str());
    push_str(&mut out, "</main>");
    MainContentHtml(out)
}

/// The sidebar layout: left drawer with `sidebar`, then the main column.
pub open spec fn layout_sidebar_spec(sidebar: Seq<char>, breadcrumbs: Seq<char>, content: Seq<char>) -> Seq<char> {
    "<div "@ + history_attrs() + " class=\"size-full\" x-data=\""@ + quote_escape(LEFT_SIDEBAR_X_DATA@) + "\">"@
        + SIDEBAR_GRID_OPEN@ + SIDEBAR_BACKDROP@ + SIDEBAR_ASIDE_OPEN@
        + "<div class=\"h-full overflow-y-auto w-[250px] bg-base-100 p-2\">"@ + sidebar + "</div></aside>"@
        + layout_main_spec(breadcrumbs, content) + "</div></div>"@
}

/// Render the sidebar layout.
pub fn layout_sidebar(opts: LayoutSidebar) -> (r: AppLayoutHtml)
    ensures
        r@ == layout_sidebar_spec(opts.sidebar@, opts.breadcrumbs@, opts.content@),
{
    let mut out = to_owned("<div ");
    let h = app_layout_history_attrs();
    push_str(&mut out, h.as_str());
    push_str(&mut out, " class=\"size-full\" x-data=\"");
    push_quote_escaped(&mut out, LEFT_SIDEBAR_X_DATA);
    push_str(&mut out, "\">");
    push_str(&mut out, SIDEBAR_GRID_OPEN);
    push_str(&mut out, SIDEBAR_BACKDROP);
    push_str(&mut out, SIDEBAR_ASIDE_OPEN);
    push_str(&mut out, "<div class=\"h-full overflow-y-auto w-[250px] bg-base-100 p-2\">");
    push_str(&mut out, opts.sidebar.as_str());
    push_str(&mut out, "</div></aside>");
    let main = layout_main(LayoutMain { breadcrumbs: opts.breadcrumbs, content: opts.content }).into_markup();
    push_str(&mut out, main.as_str());
    push_str(&mut out, "</div></div>");
    AppLayoutHtml(out)
}

/// The app layout region without a left sidebar column.
pub open spec fn app_layout_pane_spec(content: Seq<char>) -> Seq<char> {
    "<div "@ + history_attrs() + " class=\"size-full overflow-y-auto p-4\">"@ + content + "</div>"@
}

/// Render the app layout region without a left sidebar (e.g. the dashboard app grid).
pub fn app_layout_pane(content: &str) -> (r: AppLayoutHtml)
    ensures
        r@ == app_layout_pane_spec(content@),
{
    let mut out = to_owned("<div ");
    let h = app_layout_history_attrs();
    push_str(&mut out, h.as_str());
    push_str(&mut out, " class=\"size-full overflow-y-auto p-4\">");
    push_str(&mut out, content);
    push_str(&mut out, "</div>");
    AppLayoutHtml(out)
}

/// The topbar and the content, with the right panels beside it when there is a drawer.
pub open spec fn topbar_chrome_spec(items: Seq<char>, content: Seq<char>, has_sidebar: bool, right_panels: Seq<char>) -> Seq<
    char,
> {
    "<div class=\"navbar bg-base-100 border-b border-base-300 px-4 flex justify-between items-center flex-none\"><div class=\"flex-1\"></div><div class=\"flex-none flex items-center gap-2\">"@
        + items + "</div></div>"@ + (if has_sidebar {
        "<div class=\"flex-1 flex overflow-hidden relative\"><div class=\"flex-1 overflow-hidden\">"@ + content
            + "</div>"@ + right_panels + "</div>"@
    } else {
        "<div class=\"flex-1 overflow-hidden\">"@ + content + "</div>"@
    })
}

/// The topbar layout, with its Alpine state when one is given.
pub open spec fn layout_topbar_spec(
    items: Seq<char>,
    content: Seq<char>,
    has_sidebar: bool,
    x_data: Option<Seq<char>>,
    right_panels: Seq<char>,
) -> Seq<char> {
    (match x_data {
        Some(xd) => "<div class=\"h-screen flex flex-col overflow-hidden\" x-data=\""@ + quote_escape(xd) + "\">"@,
        None => "<div class=\"h-screen flex flex-col overflow-hidden\">"@,
    }) + topbar_chrome_spec(items, content, has_sidebar, right_panels) + "</div>"@
}

fn topbar_chrome(out: &mut String, opts: &LayoutTopbar)
    ensures
        final(out)@ == old(out)@ + topbar_chrome_spec(
            opts.topbar_items@,
            opts.content@,
            opts.has_sidebar,
            opts.right_panels@,
        ),
{
    push_str(
        out,
        "<div class=\"navbar bg-base-100 border-b border-base-300 px-4 flex justify-between items-center flex-none\"><div class=\"flex-1\"></div><div class=\"flex-none flex items-center gap-2\">",
    );
    push_str(out, opts.topbar_items.as_str());
    push_str(out, "</div></div>");
    if opts.has_sidebar {
        push_str(out, "<div class=\"flex-1 flex overflow-hidden relative\"><div class=\"flex-1 overflow-hidden\">");
        push_str(out, opts.content.as_str());
        push_str(out, "</div>");
        push_str(out, opts.right_panels.as_str());
        push_str(out, "</div>");
    } else {
        push_str(out, "<div class=\"flex-1 overflow-hidden\">");
        push_str(out, opts.content.as_str());
        push_str(out, "</div>");
    }
}

/// Render the topbar layout.
pub fn layout_topbar(opts: LayoutTopbar) -> (r: String)
    ensures
        r@ == layout_topbar_spec(
            opts.topbar_items@,
            opts.content@,
            opts.has_sidebar,
            match opts.x_data {
                Some(xd) => Some(xd@),
                None => None,
            },
            opts.right_panels@,
        ),
{
    let mut out = String::new();
    match opts.x_data {
        Some(xd) => {
            push_str(&mut out, "<div class=\"h-screen flex flex-col overflow-hidden\" x-data=\"");
            push_quote_escaped(&mut out, xd);
            push_str(&mut out, "\">");
        },
        None => {
            push_str(&mut out, "<div class=\"h-screen flex flex-col overflow-hidden\">");
        },
    }
    topbar_chrome(&mut out, &opts);
    push_str(&mut out, "</div>");
    proof {
        reveal_strlit("");
    }
    out
}

/// Whether rendered markup shows anything (more than whitespace).
pub open spec fn has_content(m: Seq<char>) -> bool {
    trim(m).len() > 0
}

/// The topbar layout with a right drawer around `right_sidebar`; the drawer,
/// its toggle and its state are there only when `right_sidebar` has content.
pub open spec fn topbar_with_right_spec(items: Seq<char>, content: Seq<char>, right: Seq<char>) -> Seq<char> {
    let has = has_content(right);
    layout_topbar_spec(
        if has { right_toggle_spec() + items } else { items },
        content,
        has,
        if has { Some(RIGHT_SIDEBAR_X_DATA@) } else { None },
        if has { right_aside_spec(right) } else { seq![] },
    )
}

/// Build the topbar layout, enabling the right drawer when `right_sidebar` is non-empty.
pub fn layout_topbar_with_right_sidebar(topbar_items: &str, content: &str, right_sidebar: &str) -> (r: String)
    ensures
        r@ == topbar_with_right_spec(topbar_items@, content@, right_sidebar@),
{
    let t = trim_str(right_sidebar);
    let has_sidebar = t.len() > 0;
    let items = if has_sidebar {
        let mut s = right_sidebar_toggle_buttons();
        push_str(&mut s, topbar_items);
        s
    } else {
        to_owned(topbar_items)
    };
    let right_panels = if has_sidebar {
        right_sidebar_aside(right_sidebar)
    } else {
        proof {
            reveal_strlit("");
        }
        String::new()
    };
    layout_topbar(
        LayoutTopbar {
            topbar_items: items,
            content: to_owned(content),
            has_sidebar,
            x_data: if has_sidebar { Some(RIGHT_SIDEBAR_X_DATA) } else { None },
            right_panels,
        },
    )
}

} // verus!
