//! Document shells wrapping the page chrome: the root document with the
//! vendor bundles, and the auth, scaffold and topbar shells built on it.

use vstd::prelude::*;

use crate::container::opt_view;
use crate::html::{escape_html, push_escaped_html};
use crate::layout::{
    app_layout_pane, app_layout_pane_spec, layout_card, layout_card_spec, layout_sidebar, layout_sidebar_spec,
    layout_topbar, layout_topbar_spec, layout_topbar_with_right_sidebar, topbar_with_right_spec, LayoutSidebar,
    LayoutTopbar,
};
use crate::text::{push_str, to_owned};
use crate::vendor::{vendor_head, vendor_head_spec, VendorBundles};

verus! {

/// Arguments of the root document shell.
pub struct ShellBase<'a> {
    pub title: &'a str,
    pub registry_head: String,
    pub extra_head: String,
    pub body: String,
    pub global_error: Option<&'a str>,
}

impl Default for ShellBase<'_> {
    fn default() -> (r: Self)
        ensures
            r.title@ == "Lariv"@,
            r.registry_head@ == Seq::<char>::empty(),
            r.extra_head@ == Seq::<char>::empty(),
            r.body@ == Seq::<char>::empty(),
            r.global_error is None,
    {
        ShellBase {
            title: "Lariv",
            registry_head: String::new(),
            extra_head: String::new(),
            body: String::new(),
            global_error: None,
        }
    }
}

/// The opening `<body>` tag: theme state and inherited swap and indicator.
pub const BODY_OPEN: &'static str = "<body class=\"hide-right font-sans\" x-data=\"{ theme: localStorage.getItem('theme') || 'light' }\" :data-theme=\"theme\" hx-swap:inherited=\"outerHTML\" hx-indicator:inherited=\"#global-loading-indicator\">";

/// The global loading indicator.
pub const LOADING_INDICATOR: &'static str = "<div id=\"global-loading-indicator\" class=\"fixed top-0 left-0 w-full z-50\"><div class=\"h-0.5 bg-primary animate-pulse\"></div></div>";

/// The error toast: nothing for no or an empty message.
pub open spec fn toast_spec(err: Option<Seq<char>>) -> Seq<char> {
    match err {
        Some(e) => if e.len() == 0 {
            seq![]
        } else {
            "<div class=\"toast toast-bottom toast-center z-50\"><div class=\"alert alert-error\">"@ + escape_html(e)
                + "</div></div>"@
        },
        None => seq![],
    }
}

/// The document body.
pub open spec fn shell_body_spec(children: Seq<char>, err: Option<Seq<char>>) -> Seq<char> {
    BODY_OPEN@ + LOADING_INDICATOR@ + children + toast_spec(err) + "</body>"@
}

/// The whole document: head with the vendor tags and the head slots, then the body.
/// The `<title>` comes from the head slots, not from the title option.
pub open spec fn shell_base_spec(
    vendor: Seq<char>,
    registry_head: Seq<char>,
    extra_head: Seq<char>,
    body: Seq<char>,
    err: Option<Seq<char>>,
) -> Seq<char> {
    "<!DOCTYPE html><html lang=\"en\"><head><meta charset=\"UTF-8\"><meta name=\"viewport\" content=\"width=device-width, initial-scale=1.0\">"@
        + vendor + registry_head + extra_head + "</head>"@ + shell_body_spec(body, err) + "</html>"@
}

fn shell_base_body(out: &mut String, children: &str, global_error: Option<&str>)
    ensures
        final(out)@ == old(out)@ + shell_body_spec(children@, opt_view(global_error)),
{
    push_str(out, BODY_OPEN);
    push_str(out, LOADING_INDICATOR);
    push_str(out, children);
    let ghost s0 = out@;
    match global_error {
        Some(e) => {
            if !e.is_empty() {
                push_str(out, "<div class=\"toast toast-bottom toast-center z-50\"><div class=\"alert alert-error\">");
                push_escaped_html(out, e);
                push_str(out, "</div></div>");
            } else {
                assert(s0 + Seq::<char>::empty() == s0);
            }
        },
        None => {
            assert(s0 + Seq::<char>::empty() == s0);
        },
    }
    push_str(out, "</body>");
}

/// Render the full document with the given vendor bundles.
pub fn shell_base(opts: ShellBase, bundles: &VendorBundles) -> (r: String)
    ensures
        r@ == shell_base_spec(
            vendor_head_spec(bundles.css@, bundles.js@, bundles.theme_css@),
            opts.registry_head@,
            opts.extra_head@,
            opts.body@,
            opt_view(opts.global_error),
        ),
{
    let mut out = to_owned(
        "<!DOCTYPE html><html lang=\"en\"><head><meta charset=\"UTF-8\"><meta name=\"viewport\" content=\"width=device-width, initial-scale=1.0\">",
    );
    let v = vendor_head(bundles);
    push_str(&mut out, v.as_str());
    push_str(&mut out, opts.registry_head.as_str());
    push_str(&mut out, opts.extra_head.as_str());
    push_str(&mut out, "</head>");
    shell_base_body(&mut out, opts.body.as_str(), opts.global_error);
    push_str(&mut out, "</html>");
    out
}

/// Arguments of the auth shell (a centred card).
pub struct ShellAuth<'a> {
    pub title: &'a str,
    pub registry_head: String,
    pub extra_head: String,
    pub body: String,
    pub global_error: Option<&'a str>,
}

impl Default for ShellAuth<'_> {
    fn default() -> (r: Self)
        ensures
            r.title@ == "Lariv"@,
            r.registry_head@ == Seq::<char>::empty(),
            r.extra_head@ == Seq::<char>::empty(),
            r.body@ == Seq::<char>::empty(),
            r.global_error is None,
    {
        ShellAuth {
            title: "Lariv",
            registry_head: String::new(),
            extra_head: String::new(),
            body: String::new(),
            global_error: None,
        }
    }
}

/// Render the auth shell: the body in a centred card.
pub fn shell_auth(opts: ShellAuth, bundles: &VendorBundles) -> (r: String)
    ensures
        r@ == shell_base_spec(
            vendor_head_spec(bundles.css@, bundles.js@, bundles.theme_css@),
            opts.registry_head@,
            opts.extra_head@,
            layout_card_spec(opts.body@),
            opt_view(opts.global_error),
        ),
{
    let body = layout_card(opts.body.as_str());
    shell_base(
        ShellBase {
            title: opts.title,
            registry_head: opts.registry_head,
            extra_head: opts.extra_head,
            body,
            global_error: opts.global_error,
        },
        bundles,
    )
}

/// Arguments of the scaffold shell (topbar and left sidebar).
pub struct ShellScaffold<'a> {
    pub title: &'a str,
    pub registry_head: String,
    pub extra_head: String,
    pub topbar_items: String,
    pub sidebar: String,
    pub body: String,
    pub global_error: Option<&'a str>,
}

impl Default for ShellScaffold<'_> {
    fn default() -> (r: Self)
        ensures
            r.title@ == "Lariv"@,
            r.registry_head@ == Seq::<char>::empty(),
            r.extra_head@ == Seq::<char>::empty(),
            r.topbar_items@ == Seq::<char>::empty(),
            r.sidebar@ == Seq::<char>::empty(),
            r.body@ == Seq::<char>::empty(),
            r.global_error is None,
    {
        ShellScaffold {
            title: "Lariv",
            registry_head: String::new(),
            extra_head: String::new(),
            topbar_items: String::new(),
            sidebar: String::new(),
            body: String::new(),
            global_error: None,
        }
    }
}

/// Render the scaffold shell: topbar without a right drawer around the sidebar layout.
pub fn shell_scaffold(opts: ShellScaffold, bundles: &VendorBundles) -> (r: String)
    ensures
        r@ == shell_base_spec(
            vendor_head_spec(bundles.css@, bundles.js@, bundles.theme_css@),
            opts.registry_head@,
            opts.extra_head@,
            layout_topbar_spec(
                opts.topbar_items@,
                layout_sidebar_spec(opts.sidebar@, Seq::empty(), opts.body@),
                false,
                None,
                Seq::empty(),
            ),
            opt_view(opts.global_error),
        ),
{
    let content = layout_sidebar(
        LayoutSidebar { sidebar: opts.sidebar, breadcrumbs: String::new(), content: opts.body },
    ).into_markup();
    let body = layout_topbar(
        LayoutTopbar {
            topbar_items: opts.topbar_items,
            content,
            has_sidebar: false,
            x_data: None,
            right_panels: String::new(),
        },
    );
    shell_base(
        ShellBase {
            title: opts.title,
            registry_head: opts.registry_head,
            extra_head: opts.extra_head,
            body,
            global_error: opts.global_error,
        },
        bundles,
    )
}

/// Arguments of the topbar-only shell.
pub struct ShellTopbar<'a> {
    pub title: &'a str,
    pub registry_head: String,
    pub extra_head: String,
    pub topbar_items: String,
    /// Right drawer panel; empty means no toggle and no drawer.
    pub right_sidebar: String,
    pub body: String,
    pub global_error: Option<&'a str>,
}

impl Default for ShellTopbar<'_> {
    fn default() -> (r: Self)
        ensures
            r.title@ == "Lariv"@,
            r.registry_head@ == Seq::<char>::empty(),
            r.extra_head@ == Seq::<char>::empty(),
            r.topbar_items@ == Seq::<char>::empty(),
            r.right_sidebar@ == Seq::<char>::empty(),
            r.body@ == Seq::<char>::empty(),
            r.global_error is None,
    {
        ShellTopbar {
            title: "Lariv",
            registry_head: String::new(),
            extra_head: String::new(),
            topbar_items: String::new(),
            right_sidebar: String::new(),
            body: String::new(),
            global_error: None,
        }
    }
}

/// Render the topbar shell: the body as an app-layout pane under the topbar,
/// with a right drawer when the right panel has content.
pub fn shell_topbar(opts: ShellTopbar, bundles: &VendorBundles) -> (r: String)
    ensures
        r@ == shell_base_spec(
            vendor_head_spec(bundles.css@, bundles.js@, bundles.theme_css@),
            opts.registry_head@,
            opts.extra_head@,
            topbar_with_right_spec(opts.topbar_items@, app_layout_pane_spec(opts.body@), opts.right_sidebar@),
            opt_view(opts.global_error),
        ),
{
    let pane = app_layout_pane(opts.body.as_str()).into_markup();
    let body = layout_topbar_with_right_sidebar(
        opts.topbar_items.as_str(),
        pane.as_str(),
        opts.right_sidebar.as_str(),
    );
    shell_base(
        ShellBase {
            title: opts.title,
            registry_head: opts.registry_head,
            extra_head: opts.extra_head,
            body,
            global_error: opts.global_error,
        },
        bundles,
    )
}

} // verus!
