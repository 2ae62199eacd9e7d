use lariv_rs::apps::{AppTile, AppsCapability, PluginType};
use lariv_rs::breadcrumbs::{breadcrumbs, Crumb};
use lariv_rs::datetime::{
    date_iso_for_picker, datetime_iso_for_picker, format_date, parse_date, CalendarDate, DatetimeLabel,
    DatetimeLocalInput, Instant,
};
use lariv_rs::button::{button_submit, ButtonSubmit};
use lariv_rs::form::{form, FormOpts};
use lariv_rs::input::{input_email, input_password, InputEmail, InputPassword};
use lariv_rs::label::{label, label_hint};
use lariv_rs::shell::{shell_auth, ShellAuth};
use lariv_rs::vendor::{bundle_css_href, bundle_js_href, vendor_head, VendorBundles};
use lariv_rs::length::{input_length, InputLength};
use lariv_rs::layout::{layout_main, layout_sidebar, layout_topbar_with_right_sidebar, LayoutMain, LayoutSidebar};
use lariv_rs::menu::{
    active_nav_key, sidebar_menu_modal_form_item, sidebar_nav_items_pane, SidebarMenuModalForm, SidebarNavLink,
};
use lariv_rs::nav_origin::{arrived_from_dashboard, dashboard_app_href, from_dashboard, nav_url, with_nav_origin, DASHBOARD_URL};
use lariv_rs::paths::{parse_path, PathSegment};
use lariv_rs::route::{
    trailing_slash, AppPanePost, FileDownloadPost, FkSelectGet, RouteQueryBuilder, RouteTag, RouteUrl,
};
use lariv_rs::swap::{
    app_layout_history_attrs, form_hx_boost_post_main, form_hx_get_for_url, form_hx_get_picker_route,
    form_hx_post_for_url, form_hx_post_main, form_hx_post_main_for_url, form_hx_post_main_url,
    form_post_download_route, hx_nav_app_layout_for_url, hx_target, oob_attrs, oob_delete, region_attrs, AppLayoutKey,
    MainContentKey, ModalHostKey, SwapKey,
};
use lariv_rs::trigram::{clamp_search_limit, like_contains_pattern, DEFAULT_SEARCH_LIMIT, MAX_SEARCH_LIMIT};

struct TestTableKey;
impl SwapKey for TestTableKey {
    const ID: &'static str = "test-table";
    const SELECTOR: &'static str = "#test-table";
}

struct TestPickerTableKey;
impl SwapKey for TestPickerTableKey {
    const ID: &'static str = "test-picker-table";
    const SELECTOR: &'static str = "#test-picker-table";
}

struct TestPickerModalKey;
impl SwapKey for TestPickerModalKey {
    const ID: &'static str = "test-picker-modal";
    const SELECTOR: &'static str = "#test-picker-modal";
}

#[derive(Clone, Copy, Default)]
struct TestAppPanePostRoute;
impl RouteTag for TestAppPanePostRoute {
    const PATH: &'static str = "/test/create";
}
impl AppPanePost for TestAppPanePostRoute {}
impl FkSelectGet<TestPickerTableKey, TestPickerModalKey> for TestAppPanePostRoute {}
impl RouteUrl for TestAppPanePostRoute {
    // A specification function: compiled code never calls it.
    fn path_spec(&self) -> vstd::seq::Seq<char> {
        unreachable!()
    }
    fn path(self) -> String {
        Self::PATH.to_owned()
    }
}

#[derive(Clone, Copy, Default)]
struct TestFileDownloadRoute;
impl RouteTag for TestFileDownloadRoute {
    const PATH: &'static str = "/test/download";
}
impl FileDownloadPost for TestFileDownloadRoute {}
impl RouteUrl for TestFileDownloadRoute {
    // A specification function: compiled code never calls it.
    fn path_spec(&self) -> vstd::seq::Seq<char> {
        unreachable!()
    }
    fn path(self) -> String {
        Self::PATH.to_owned()
    }
}

#[derive(Clone, Copy, Default)]
struct TestQueryPostRoute;
impl RouteTag for TestQueryPostRoute {
    const PATH: &'static str = "/test/create";
}
impl AppPanePost for TestQueryPostRoute {}
impl RouteUrl for TestQueryPostRoute {
    // A specification function: compiled code never calls it.
    fn path_spec(&self) -> vstd::seq::Seq<char> {
        unreachable!()
    }
    fn path(self) -> String {
        Self::PATH.to_owned()
    }
}

#[test]
fn parse_id_param() {
    let p = parse_path("/users/u/{id}");
    assert_eq!(
        p.segments,
        vec![
            PathSegment::Static("/users/u/".into()),
            PathSegment::Param { name: "id".into(), splat: false },
        ]
    );
}

#[test]
fn parse_parent_id_and_splat() {
    let p = parse_path("/filesystem/browse/{parent_id}");
    assert!(matches!(
        p.segments.last(),
        Some(PathSegment::Param { name, splat: false }) if name == "parent_id"
    ));

    let p = parse_path("/static/pwa/{*path}");
    assert!(matches!(
        p.segments.last(),
        Some(PathSegment::Param { name, splat: true }) if name == "path"
    ));
}

fn tile(key: &str, name: &str, href: &str, icon: &str, roles: &[&str]) -> AppTile {
    AppTile {
        key: key.into(),
        verbose_name: name.into(),
        href: href.into(),
        icon: icon.into(),
        plugin_type: PluginType::App,
        roles: roles.iter().map(|r| r.to_string()).collect(),
    }
}

#[test]
fn visible_after_register_apps() {
    let apps = AppsCapability::new();
    let apps = apps.register(tile("p_users", "Users", "/users/", "users", &["admin"]));
    let apps = apps.register(tile("p_blog", "Blog", "/blog/", "newspaper", &[]));
    assert_eq!(apps.apps().len(), 2);
    let visible = apps.visible_apps("admin", false);
    let keys: Vec<_> = visible.iter().map(|t| t.key.as_str()).collect();
    assert!(keys.contains(&"p_users"), "{keys:?}");
    assert!(keys.contains(&"p_blog"), "{keys:?}");
}

fn sample_links() -> [SidebarNavLink<'static>; 4] {
    [
        SidebarNavLink { key: "users", title: "All Users", url: "/users/", icon_name: None, match_prefixes: &[] },
        SidebarNavLink { key: "roles", title: "Roles", url: "/users/roles/", icon_name: None, match_prefixes: &[] },
        SidebarNavLink {
            key: "journals",
            title: "Journals",
            url: "/finance/journals/",
            icon_name: None,
            match_prefixes: &["/finance/journals", "/finance/journal-entries"],
        },
        SidebarNavLink {
            key: "accounts",
            title: "Accounts",
            url: "/finance/",
            icon_name: None,
            match_prefixes: &["/finance", "/finance/accounts"],
        },
    ]
}

#[test]
fn active_nav_longest_prefix() {
    let links = sample_links();
    assert_eq!(active_nav_key(&links, "/users"), Some("users"));
    assert_eq!(active_nav_key(&links, "/users/"), Some("users"));
    assert_eq!(active_nav_key(&links, "/users?page=2"), Some("users"));
    assert_eq!(active_nav_key(&links, "/users/roles"), Some("roles"));
    assert_eq!(active_nav_key(&links, "/users/roles/create"), Some("roles"));
    assert_eq!(active_nav_key(&links, "/finance"), Some("accounts"));
    assert_eq!(active_nav_key(&links, "/finance/journals?page=2"), Some("journals"));
    assert_eq!(active_nav_key(&links, "/finance/journal-entries/9"), Some("journals"));
}

#[test]
fn dashboard_app_href_adds_query() {
    assert_eq!(dashboard_app_href("/users"), "/users/?from=dashboard");
    assert_eq!(dashboard_app_href("/users/"), "/users/?from=dashboard");
    assert_eq!(dashboard_app_href("/users/?page=1"), "/users/?page=1&from=dashboard");
    assert_eq!(dashboard_app_href("/users/?from=dashboard"), "/users/?from=dashboard");
    assert_eq!(dashboard_app_href("/dashboard"), "/dashboard/");
}

#[test]
fn swap_key_id_and_selector() {
    assert_eq!(TestTableKey::ID, "test-table");
    assert_eq!(TestTableKey::SELECTOR, "#test-table");
    assert_eq!(MainContentKey::SELECTOR, "#main-content");
    assert_eq!(AppLayoutKey::SELECTOR, "#app-layout");
    assert_eq!(ModalHostKey::SELECTOR, "body");
}

#[test]
fn region_and_target_attrs() {
    let r = region_attrs::<TestTableKey>().as_string();
    assert!(r.contains(r#"id="test-table""#));

    let t = hx_target::<TestTableKey>().as_string();
    assert!(t.contains("hx-target=\"#test-table\""));
    assert!(!t.contains("hx-select"));
    assert!(t.contains("hx-swap=\"outerHTML\""));

    let o = oob_attrs::<TestTableKey>().as_string();
    assert!(o.contains("hx-swap-oob=\"true\""));
    assert!(o.contains("id=\"test-table\""));
}

#[test]
fn app_layout_history_attrs_includes_elt() {
    let attrs = app_layout_history_attrs();
    assert!(attrs.contains("app-layout"));
    assert!(attrs.contains("hx-history-elt"));
}

#[test]
fn form_hx_helpers() {
    let post = form_hx_post_for_url::<TestTableKey>("/users/create/").as_string();
    assert!(post.contains("hx-post=\"/users/create/\""));
    assert!(post.contains("hx-target=\"#test-table\""));
    assert!(!post.contains("hx-select"));

    let get = form_hx_get_for_url::<TestTableKey>("/users/").as_string();
    assert!(get.contains("hx-get=\"/users/\""));
    assert!(get.contains("hx-push-url=\"true\""));
    assert!(!get.contains("hx-select"));

    let picker =
        form_hx_get_picker_route::<TestPickerTableKey, TestPickerModalKey, _>(TestAppPanePostRoute).as_string();
    assert!(picker.contains("hx-get=\"/test/create\""));
    assert!(picker.contains("hx-target=\"#test-picker-modal\""));
    assert!(picker.contains("hx-swap=\"outerHTML\""));
    assert!(picker.contains("hx-push-url=\"false\""));

    let main = form_hx_post_main_for_url("/users/login").as_string();
    assert!(main.contains("hx-select=\"#app-layout\""));

    let nav = hx_nav_app_layout_for_url("/dashboard/").as_string();
    assert!(nav.contains("hx-get=\"/dashboard/\""));
    assert!(nav.contains("hx-target=\"#app-layout\""));

    let boost = form_hx_boost_post_main("/users/logout/").as_string();
    assert!(boost.contains("hx-boost=\"true\""));
    assert!(boost.contains("hx-target=\"#app-layout\""));
}

#[test]
fn typed_route_helpers_use_path_from_route_tag() {
    let main = form_hx_post_main(TestAppPanePostRoute).as_string();
    assert!(main.contains("hx-post=\"/test/create\""));

    let download = form_post_download_route(TestFileDownloadRoute).as_string();
    assert!(download.contains("action=\"/test/download\""));
    assert!(download.contains("hx-boost=\"false\""));
}

#[test]
fn form_hx_post_main_with_query() {
    let url = RouteQueryBuilder::new(TestQueryPostRoute)
        .query("ClientID", 42)
        .query_opt("return", Some("client"))
        .build_with_query();
    let attrs = form_hx_post_main_url(&url).as_string();
    assert!(attrs.contains("hx-post=\"/test/create?ClientID=42"));
    assert!(attrs.contains("return=client"));
}

#[test]
fn picker_iso_from_display() {
    assert_eq!(date_iso_for_picker("08/02/2026"), "2026-02-08");
    assert_eq!(datetime_iso_for_picker("08/02/2026 17:30:45"), "2026-02-08T17:30:45");
}

#[test]
fn like_pattern_is_lowercase_and_escaped() {
    assert_eq!(like_contains_pattern("Riv_er%"), r#"%riv\_er\%%"#);
}

#[test]
fn clamp_limit_defaults_and_caps() {
    assert_eq!(clamp_search_limit(0), DEFAULT_SEARCH_LIMIT);
    assert_eq!(clamp_search_limit(3), 3);
    assert_eq!(clamp_search_limit(999), MAX_SEARCH_LIMIT);
}

fn utc(secs: i64) -> Instant {
    Instant::from_timestamp(secs, 0).unwrap()
}

// 2026-02-08T12:00:00Z
const NOON_8_FEB_2026: i64 = 1_770_552_000;

#[test]
fn label_short_uses_timezone() {
    let dt = utc(NOON_8_FEB_2026);
    let local = DatetimeLabel::short(dt, "Asia/Kolkata");
    assert_eq!(local.as_str(), "08/02/2026 17:30");
}

#[test]
fn format_date_is_day_first() {
    let d = CalendarDate { year: 2026, month: 2, day: 8 };
    assert_eq!(format_date(d), "08/02/2026");
    assert_eq!(parse_date("08/02/2026"), Some(d));
    assert_eq!(parse_date("2026-02-08"), Some(d));
}

#[test]
fn local_input_round_trip_with_seconds() {
    let stored = utc(NOON_8_FEB_2026 + 45);
    let input = DatetimeLocalInput::from_stored(stored, "Asia/Kolkata");
    assert_eq!(input.as_str(), "08/02/2026 17:30:45");
    let parsed = input.to_stored("Asia/Kolkata").unwrap();
    assert_eq!(parsed, stored);
}

#[test]
fn local_input_accepts_minute_only() {
    let parsed = DatetimeLocalInput::from_raw("08/02/2026 17:30").to_stored("Asia/Kolkata").unwrap();
    assert_eq!(parsed, utc(NOON_8_FEB_2026));
}

#[test]
fn local_input_accepts_legacy_iso() {
    let parsed = DatetimeLocalInput::from_raw("2026-02-08T17:30").to_stored("Asia/Kolkata").unwrap();
    assert_eq!(parsed, utc(NOON_8_FEB_2026));
}

/// Splits a request target into its path and query, as the request's URI does.
fn uri(target: &str) -> (&str, Option<&str>) {
    match target.split_once('?') {
        Some((p, q)) => (p, Some(q)),
        None => (target, None),
    }
}

fn arrived(target: &str, hx_current_url: Option<&str>, referer: Option<&str>) -> bool {
    let (path, query) = uri(target);
    arrived_from_dashboard(path, query, hx_current_url, referer)
}

#[test]
fn dashboard_path_is_not_origin() {
    assert!(!arrived("/dashboard/", None, None));
    assert!(!arrived("/dashboard", None, None));
    assert!(!arrived("/dashboard/?from=dashboard", None, None));
}

#[test]
fn query_param_marks_origin() {
    assert!(arrived("/users/?from=dashboard", None, None));
    assert!(arrived("/users/list/?page=2&from=dashboard", None, None));
    assert!(!arrived("/users/", None, None));
    assert!(!arrived("/users/?from=other", None, None));
}

#[test]
fn hx_current_url_dashboard_marks_origin() {
    assert!(arrived("/users/", Some("http://localhost:3000/dashboard/"), None));
}

#[test]
fn hx_current_url_with_from_query_marks_origin() {
    assert!(arrived("/users/1/", Some("http://localhost:3000/users/?from=dashboard"), None));
}

#[test]
fn referer_dashboard_marks_origin() {
    assert!(arrived("/clients/", None, Some("http://localhost:3000/dashboard")));
}

#[test]
fn unrelated_referer_is_not_origin() {
    assert!(!arrived(
        "/users/1/",
        Some("http://localhost:3000/users/"),
        Some("http://localhost:3000/users/")
    ));
}

#[test]
fn oob_delete_emits_marker() {
    let html = oob_delete::<TestTableKey>();
    assert!(html.contains("id=\"test-table\""));
    assert!(html.contains("hx-swap-oob=\"delete\""));
}

#[test]
fn sidebar_nav_items_pane_marks_active() {
    let links = sample_links();
    let html = sidebar_nav_items_pane(&links, "/users/roles", false);
    assert!(html.contains("hx-target=\"#app-layout\""));
    assert!(html.contains(r#"class="menu-active""#));
    // Active class sits on the Roles anchor, not All Users.
    let roles_anchor_end = html.find(">Roles</a>").expect("roles link");
    let roles_open = html[..roles_anchor_end].rfind("<a ").expect("roles <a");
    assert!(html[roles_open..roles_anchor_end].contains(r#"class="menu-active""#));
    let users_anchor_end = html.find(">All Users</a>").expect("users link");
    let users_open = html[..users_anchor_end].rfind("<a ").expect("users <a");
    assert!(!html[users_open..users_anchor_end].contains("menu-active"));
}

#[test]
fn sidebar_modal_form_item_is_menu_anchor_not_button() {
    let html = sidebar_menu_modal_form_item(SidebarMenuModalForm {
        label: "Create Item",
        href: "/filesystem/create",
        name: "p_filesystem.VNodeCreateForm",
        ..Default::default()
    });
    assert!(html.contains("<li>"));
    assert!(html.contains("<a "));
    assert!(html.contains("Create Item</a>"));
    assert!(html.contains("hx-get=\"/filesystem/create?name=p_filesystem.VNodeCreateForm\""));
    assert!(!html.contains("btn"));
    assert!(!html.contains("<button"));
    assert!(!html.contains("fk-modal-host"));
}

#[test]
fn empty_crumbs_render_nothing() {
    assert_eq!(breadcrumbs(&[], false), "");
}

#[test]
fn linked_and_current_crumbs() {
    let html = breadcrumbs(
        &[Crumb { label: "Blog", href: Some("/blog/") }, Crumb { label: "Edit", href: None }],
        false,
    );
    assert!(html.contains(r#"class="breadcrumbs"#));
    assert!(html.contains("hx-target=\"#app-layout\""));
    assert!(html.contains("hx-get=\"/blog/\""));
    assert!(html.contains(">Blog</a>"));
    assert!(html.contains("<span>Edit</span>"));
    // Current crumb must not be a link.
    assert!(!html.contains(">Edit</a>"));
    assert!(!html.contains(">Dashboard</a>"));
}

#[test]
fn label_without_hint_omits_icon() {
    let html = label("Status", "ok");
    assert!(html.contains("Status"));
    assert!(!html.contains("Status:"));
    assert!(!html.contains("\u{1F6C8}"));
    assert!(!html.contains("data-tip"));
    assert!(!html.contains("hintOpen"));
}

#[test]
fn label_with_hint_renders_tooltip_icon() {
    let html = label_hint("Notes", Some("Internal only."), "Example");
    assert!(html.contains("label text-sm font-bold"));
    assert!(html.contains("Notes"));
    assert!(!html.contains("Notes:"));
    assert!(html.contains("\u{1F6C8}"));
    assert!(html.contains("hintOpen"));
    assert!(html.contains("Internal only."));
}

#[test]
fn right_sidebar_enables_drawer() {
    let panel = "<div>history panel</div>";
    let s = layout_topbar_with_right_sidebar("", "<p>main</p>", panel);
    assert!(s.contains("showRight"));
    assert!(s.contains("rightSidebarWidth"));
    assert!(s.contains("history panel"));
}

#[test]
fn empty_right_sidebar_disables_drawer() {
    let s = layout_topbar_with_right_sidebar("", "<p>main</p>", "");
    assert!(!s.contains("showRight"));
}

#[test]
fn left_sidebar_mobile_drawer_closes_on_nav() {
    let out = layout_sidebar(LayoutSidebar {
        sidebar: "<nav>menu</nav>".to_string(),
        breadcrumbs: String::new(),
        content: "<p>body</p>".to_string(),
    });
    let s = out.into_markup();
    assert!(s.contains("closeLeft"));
    assert!(s.contains("toggleLeft"));
    assert!(s.contains("main-content"));
    assert!(s.contains("htmx:after-swap"));
    assert!(s.contains("max-md:fixed"));
    assert!(s.contains("max-md:-translate-x-full"));
    assert!(!s.contains("translate: none"));
}

#[test]
fn layout_main_places_breadcrumbs_after_toggle() {
    let out = layout_main(LayoutMain {
        breadcrumbs: "<div class=\"breadcrumbs\">Blog</div>".to_string(),
        content: "<p>body</p>".to_string(),
    });
    let s = out.into_markup();
    let crumb_pos = s.find(r#"class="breadcrumbs""#).expect("crumbs");
    let toggle_pos = s.find("toggleLeft()").expect("toggle");
    assert!(toggle_pos < crumb_pos);
}

/// Stand-in bundle texts: the vendor asset files are not part of the library.
const SAMPLE_CSS: &str = "[x-cloak] { display: none !important; }";
const SAMPLE_JS: &str = "window.sampleVendor = true;";
const SAMPLE_THEME: &str = "@theme { --font-sans: Satoshi; }";

fn sample_bundles() -> VendorBundles<'static> {
    VendorBundles { css: SAMPLE_CSS, js: SAMPLE_JS, theme_css: SAMPLE_THEME }
}

#[test]
fn vendor_head_links_hashed_bundles() {
    let html = vendor_head(&sample_bundles());
    assert!(html.contains(&bundle_css_href(SAMPLE_CSS)));
    assert!(html.contains(&bundle_js_href(SAMPLE_JS)));
    assert!(html.contains(r#"name="htmx-config""#));
    assert!(html.contains(r#"type="text/tailwindcss""#));
    assert!(html.contains("defer"));
    assert!(
        html.contains("</script>"),
        "external <script src> must be closed or the browser treats the rest of the document as JS: {html}"
    );
    assert!(!html.contains("var htmx="));
    assert!(!html.contains("daisyUI 5.7.25"));
}

#[test]
fn form_builder_composes_inputs() {
    let mut inputs = input_email(&InputEmail { required: true, ..Default::default() });
    inputs.push_str(&input_password(&InputPassword { required: true, ..Default::default() }));
    let html = shell_auth(
        ShellAuth {
            title: "x",
            body: form(FormOpts {
                title: "Sign in",
                action: Some("/users/login"),
                inputs,
                actions: button_submit(&ButtonSubmit { label: "Go", ..Default::default() }),
                ..Default::default()
            }),
            ..Default::default()
        },
        &sample_bundles(),
    );
    assert!(html.contains("Sign in"));
    assert!(html.contains("btn btn-primary"));
    assert!(html.contains(r#"type="email""#));
}

/// Whether the length input's client code shows up outside its `x-data` attribute.
fn alpine_js_leaked_as_text(html: &str) -> bool {
    let marker = "syncMm(fromSubmit)";
    let Some(start) = html.find("x-data=\"") else {
        return html.contains(marker);
    };
    let value_start = start + "x-data=\"".len();
    let value_end = value_start + html[value_start..].find('"').unwrap_or(html.len() - value_start);
    html.match_indices(marker).any(|(i, _)| i < value_start || i >= value_end)
}

#[test]
fn input_length_submits_mm_and_lists_units() {
    let html = input_length(InputLength {
        label: "Width",
        name: "WidthMm",
        value: "25.4",
        unit: "in",
        required: true,
        ..Default::default()
    });
    assert!(html.contains("Width"));
    assert!(html.contains(r#"name="WidthMm""#));
    assert!(html.contains(r#"type="hidden""#));
    assert!(html.contains(r#"value="25.4""#));
    assert!(html.contains(r#"value="1""#));
    for unit in ["mm", "cm", "m", "km", "in", "ft"] {
        assert!(html.contains(&format!(r#"value="{unit}""#)), "missing unit {unit} in {html}");
    }
    assert!(html.contains("required"));
    assert!(html.contains("join"));
    assert!(html.contains("999999999999999n"));
    assert!(html.contains("in:25400000"));
    assert!(html.contains("ft:304800000"));
    assert!(!alpine_js_leaked_as_text(&html), "Alpine JS rendered as text: {html}");
}

#[test]
fn input_length_empty_name_omits_hidden() {
    let html = input_length(InputLength { label: "", name: "", value: "10", ..Default::default() });
    assert!(!html.contains(r#"type="hidden""#));
    assert!(html.contains(r#"type="text""#));
}

#[test]
fn input_length_empty_omits_value() {
    let html = input_length(InputLength { name: "Len", value: "", ..Default::default() });
    assert!(html.contains(r#"name="Len""#));
    assert!(html.contains("mm: &quot;&quot;"));
}

#[test]
fn from_dashboard_defaults_false_outside_scope() {
    assert!(!from_dashboard(None));
}

#[test]
fn prepends_dashboard_when_origin_set() {
    let html = breadcrumbs(&[Crumb { label: "Blog", href: Some("/blog/") }], true);
    assert!(html.contains("hx-get=\"/dashboard/\""));
    assert!(html.contains(">Dashboard</a>"));
    let dash = html.find(">Dashboard</a>").expect("dashboard crumb");
    let blog = html.find(">Blog</a>").expect("blog crumb");
    assert!(dash < blog);
}

#[test]
fn empty_crumbs_show_dashboard_when_origin_set() {
    let html = breadcrumbs(&[], true);
    assert!(html.contains(r#"class="breadcrumbs"#));
    assert!(html.contains(">Dashboard</a>"));
    assert!(html.contains("hx-get=\"/dashboard/\""));
}

#[test]
fn does_not_duplicate_existing_dashboard_crumb() {
    let html = breadcrumbs(&[Crumb { label: "Dashboard", href: Some(DASHBOARD_URL) }], true);
    assert_eq!(html.matches(">Dashboard</a>").count(), 1);
}

#[test]
fn scope_sets_from_dashboard() {
    assert!(from_dashboard(Some(true)));
    assert!(!from_dashboard(None));
}

#[test]
fn with_nav_origin_merges_onto_typed_style_urls() {
    assert_eq!(with_nav_origin("/crm/contacts/", false), "/crm/contacts/");
    assert_eq!(with_nav_origin("/crm/contacts/", true), "/crm/contacts/?from=dashboard");
    assert_eq!(with_nav_origin("/crm/contacts/?from=dashboard", true), "/crm/contacts/?from=dashboard");
    assert_eq!(with_nav_origin("/dashboard/", true), "/dashboard/");
    assert_eq!(nav_url("/crm/contacts", true), "/crm/contacts/?from=dashboard");
}
