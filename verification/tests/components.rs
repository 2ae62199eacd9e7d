use lariv_rs::attrs::HtmlAttrs;
use lariv_rs::code_editor::{code_editor_input, CodeEditorInput, CODE_EDITOR_BOOTSTRAP};
use lariv_rs::config::{AppConfig, AppConfigTag, BindTarget, ConfigCapability, ConfigTag};
use lariv_rs::container::{container_column, container_error, container_html, container_row};
use lariv_rs::delete_confirmation::{delete_confirmation, DeleteConfirmation};
use lariv_rs::detail::{detail, detail_header, DetailHeader};
use lariv_rs::hitl::{hitl_approval, hitl_resolved, HitlApproval};
use lariv_rs::html::{div_text, escaped_string, icon, raw_string};
use lariv_rs::modal::{modal, modal_with_uid, Modal};
use lariv_rs::timeline::{timeline, Timeline, TimelineItem};

#[test]
fn escaped_string_replaces_markup_characters() {
    assert_eq!(escaped_string("a<b>&\"c\""), "a&lt;b&gt;&amp;&quot;c&quot;");
    assert_eq!(raw_string("<b>"), "<b>");
    assert_eq!(lariv_rs::html::concat("btn ", "btn-sm"), "btn btn-sm");
}

#[test]
fn div_text_escapes_the_body_only() {
    assert_eq!(div_text("x y", "<i>"), "<div class=\"x y\">&lt;i&gt;</div>");
}

#[test]
fn icon_names_the_heroicon_svg() {
    assert_eq!(
        icon("x-mark", "size-4"),
        "<span class=\"heroicon size-4\" style=\"--heroicon-url: url('https://api.iconify.design/heroicons/x-mark.svg')\"></span>"
    );
}

#[test]
fn containers_wrap_children() {
    assert_eq!(container_row("p-2", "<b>x</b>"), "<div class=\"flex flex-row gap-1 p-2\"><b>x</b></div>");
    assert_eq!(
        container_column("", "c"),
        "<div class=\"flex flex-col gap-1 min-w-0 w-full \">c</div>"
    );
    assert_eq!(container_html("k", "c"), "<div class=\"k\">c</div>");
}

#[test]
fn container_error_shows_only_non_empty_messages() {
    assert_eq!(container_error(None, "c"), "<div class=\"flex flex-col gap-1 w-full\">c</div>");
    assert_eq!(container_error(Some(""), "c"), "<div class=\"flex flex-col gap-1 w-full\">c</div>");
    assert_eq!(
        container_error(Some("bad <x>"), "c"),
        "<div class=\"flex flex-col gap-1 w-full\">c<span class=\"text-sm text-error\">bad &lt;x&gt;</span></div>"
    );
}

#[test]
fn detail_wraps_and_header_escapes_title() {
    assert_eq!(detail("<p>x</p>"), "<div><p>x</p></div>");
    let h = detail_header(DetailHeader { title: "A & B", actions: "<a>e</a>".to_string() });
    assert_eq!(
        h,
        "<div class=\"flex flex-wrap items-center justify-between gap-2 mb-4\"><div class=\"text-xl font-semibold text-primary mb-0\">A &amp; B</div><div class=\"flex flex-wrap items-center gap-2\"><a>e</a></div></div>"
    );
}

#[test]
fn modal_removes_itself_by_uid() {
    let m = modal_with_uid("m1", "", "<p>hi</p>");
    assert!(m.starts_with("<dialog id=\"m1\" class=\"modal modal-open fk-modal-container\""));
    assert!(m.contains("onclick=\"document.getElementById('m1').remove()\""));
    assert!(m.contains("<div class=\"mt-8\"><p>hi</p></div>"));
    assert!(m.ends_with("close</button></form></dialog>"));
    let d = modal(Modal { children: "x".to_string(), ..Default::default() });
    assert!(d.starts_with("<dialog id=\"modal\""));
}

#[test]
fn hitl_resolved_reports_the_decision() {
    assert_eq!(
        hitl_resolved("7", "send_mail", true),
        "<div id=\"llm_assistant_hitl_7\" class=\"rounded border border-base-content/15 p-2 text-sm\"><code>send_mail</code> \u{2014} ran</div>"
    );
    assert!(hitl_resolved("7", "send_mail", false).ends_with("\u{2014} denied</div>"));
}

#[test]
fn hitl_approval_carries_button_attributes() {
    let card = hitl_approval(HitlApproval {
        request_id: "r1",
        function_name: "f",
        args_json: "{\"a\":1}",
        run_attrs: HtmlAttrs::new().set("hx-post", "/run"),
        deny_attrs: HtmlAttrs::new(),
    });
    assert!(card.starts_with("<div id=\"llm_assistant_hitl_r1\""));
    assert!(card.contains("{&quot;a&quot;:1}"));
    assert!(card.contains("<button type=\"button\" class=\"btn btn-primary btn-sm\" hx-post=\"/run\">Run</button>"));
    assert!(card.contains("<button type=\"button\" class=\"btn btn-ghost btn-sm\">Deny</button>"));
}

#[test]
fn delete_confirmation_defaults_and_errors() {
    let d = delete_confirmation(DeleteConfirmation::default());
    assert!(d.contains("<h2 class=\"text-xl font-bold text-error\">Confirm Deletion</h2>"));
    assert!(d.contains("Are you sure you want to delete this item?"));
    assert!(!d.contains("alert-error"));
    let e = delete_confirmation(DeleteConfirmation { global_error: Some("in use"), ..Default::default() });
    assert!(e.contains("<div class=\"alert alert-error my-2 text-sm\">in use</div>"));
    assert!(e.contains("Confirm Delete</button>"));
}

#[test]
fn timeline_without_items_says_so() {
    let t = timeline(Timeline::default());
    assert!(t.starts_with("<div id=\"timeline-container\" class=\"timeline-container \">"));
    assert!(t.contains("No items found"));
}

#[test]
fn timeline_links_items_with_href() {
    let items = [
        TimelineItem { content: "one".to_string(), href: None },
        TimelineItem { content: "two".to_string(), href: Some("/a/".to_string()) },
    ];
    let t = timeline(Timeline { uid: "", title: Some("Log"), items: &items, ..Default::default() });
    assert!(t.starts_with("<div id=\"timeline-container\""));
    assert!(t.contains("<div class=\"text-xl font-semibold\">Log</div>"));
    assert!(t.contains(">one</div></div>"));
    assert!(t.contains("<a href=\"/a/\""));
    assert!(!t.contains("No items found"));
    assert!(t.find("one").unwrap() < t.find("two").unwrap());
}

#[test]
fn code_editor_defaults_language_and_rows() {
    let e = code_editor_input(CodeEditorInput { name: "body", language: "", rows: 0, ..Default::default() });
    assert!(e.starts_with(CODE_EDITOR_BOOTSTRAP));
    assert!(e.contains("data-language=\"plaintext\" data-rows=\"12\""));
    assert!(e.contains("<textarea name=\"body\" rows=\"12\" class=\"hidden\" data-code-editor-input>"));
    let j = code_editor_input(CodeEditorInput {
        name: "src",
        value: "a<b",
        language: "javascript",
        rows: 4,
        max_height: "24rem",
        required: true,
        ..Default::default()
    });
    assert!(j.contains("data-language=\"javascript\" data-rows=\"4\" data-max-height=\"24rem\""));
    assert!(j.contains("data-code-editor-input required>a&lt;b</textarea>"));
}

#[test]
fn bind_target_prefers_a_non_empty_socket() {
    let mut cfg = AppConfig::default();
    assert_eq!(cfg.bind_addr(), "127.0.0.1:3000");
    cfg.bind = None;
    assert_eq!(cfg.bind_addr(), "0.0.0.0:3000");
    assert_eq!(cfg.bind_target(), BindTarget::Tcp("0.0.0.0:3000".to_string()));
    cfg.uds = Some(String::new());
    assert_eq!(cfg.bind_target(), BindTarget::Tcp("0.0.0.0:3000".to_string()));
    cfg.uds = Some("/run/app.sock".to_string());
    assert_eq!(cfg.bind_target(), BindTarget::Uds("/run/app.sock".to_string()));
}

#[test]
fn env_overrides_replace_only_what_is_set() {
    let cfg = AppConfig::default().with_env_overrides(Some("postgres://x".to_string()), None, None);
    assert_eq!(cfg.database_url, "postgres://x");
    assert_eq!(cfg.bind.as_deref(), Some("127.0.0.1:3000"));
    let cfg = cfg.with_env_overrides(None, Some("0.0.0.0:8080".to_string()), None);
    assert_eq!(cfg.database_url, "postgres://x");
    assert_eq!(cfg.bind.as_deref(), Some("0.0.0.0:8080"));
    assert!(cfg.uds.is_none());
    let cfg = cfg.with_env_overrides(None, None, Some("/run/app.sock".to_string()));
    assert_eq!(cfg.uds.as_deref(), Some("/run/app.sock"));
    assert_eq!(cfg.bind_target(), BindTarget::Uds("/run/app.sock".to_string()));
}

use lariv_rs::picker::{fk_dropdown_id, input_foreign_key, items_json, InputForeignKey, ManyToManyItem};
use lariv_rs::swap::{MainContentKey, SwapKey};
use lariv_rs::table::TableColumnHeader;
use lariv_rs::table_view::{data_table, data_table_list, DataTable, DataTableDisplay, TableRow};

#[test]
fn fk_dropdown_id_sanitises_uid_or_name() {
    assert_eq!(fk_dropdown_id("", "owner_id"), "fk-dropdown-owner_id");
    assert_eq!(fk_dropdown_id("a b.c", "x"), "fk-dropdown-a-b-c");
}

#[test]
fn hidden_foreign_key_is_a_plain_input() {
    let h = input_foreign_key(&InputForeignKey { name: "owner", value: "3", hidden: true, ..Default::default() });
    assert_eq!(
        h,
        "<div class=\"my-1 hidden \"><input type=\"hidden\" name=\"owner\" value=\"3\"></div>"
    );
}

#[test]
fn foreign_key_picker_targets_its_dropdown() {
    let p = input_foreign_key(&InputForeignKey {
        label: "Owner",
        name: "owner",
        value: "3",
        display: "Ann",
        url: "/users/select/",
        ..Default::default()
    });
    assert!(p.starts_with("<div class=\"my-1 relative w-full \" x-data=\"{\n            value: &quot;3&quot;"));
    assert!(p.contains("<input type=\"hidden\" name=\"owner\" :value=\"value\">"));
    assert!(p.contains("id=\"fk-dropdown-owner-q\""));
    assert!(p.contains("name=\"Name\""));
    assert!(p.contains("hx-get=\"/users/select/?target_input=owner\""));
    assert!(p.contains("hx-target=\"#fk-dropdown-owner\""));
    assert!(p.contains("hx-include=\"#fk-dropdown-owner-q\""));
    assert!(p.contains("aria-label=\"Clear selection\""));
    assert!(p.contains("<div class=\"fk-picker-results"));
    assert!(p.contains(" id=\"fk-dropdown-owner\" x-ref=\"results\"></div>"));
    let r = input_foreign_key(&InputForeignKey {
        name: "owner",
        url: "/users/select/?page=2",
        required: true,
        ..Default::default()
    });
    assert!(r.contains("hx-get=\"/users/select/?page=2&amp;target_input=owner\""));
    assert!(r.contains(":value=\"value\" required>"));
    assert!(!r.contains("Clear selection"));
}

#[test]
fn many_to_many_items_serialise_with_optional_color() {
    let items = [ManyToManyItem::new("1", "Red \"r\"").with_color("#f00"), ManyToManyItem::new("2", "Blue").with_color("")];
    assert_eq!(
        items_json(&items),
        "[{\"Key\":\"1\",\"Value\":\"Red \\\"r\\\"\",\"Color\":\"#f00\"},{\"Key\":\"2\",\"Value\":\"Blue\"}]"
    );
    assert_eq!(items_json(&[]), "[]");
}

#[test]
fn data_table_shows_the_requested_view() {
    let t = data_table(&DataTable {
        uid: "t1",
        title: "Users",
        displays: vec![
            DataTableDisplay { name: "Grid".to_string(), html: "<g/>".to_string() },
            DataTableDisplay { name: "List".to_string(), html: "<l/>".to_string() },
        ],
        default_view: "List",
        ..Default::default()
    });
    assert!(t.starts_with("<div id=\"t1\" class=\"w-full data-table-container \""));
    assert!(t.contains("<div class=\"text-xl font-semibold\">Users</div>"));
    assert!(t.contains("<select class=\"select select-md\" x-model=\"view\"><option value=\"Grid\">Grid</option><option value=\"List\">List</option></select>"));
    assert!(t.contains("<div :class=\"{ 'hidden': view !== 'Grid' }\" class=\"hidden\"><g/></div>"));
    assert!(t.contains("<div :class=\"{ 'hidden': view !== 'List' }\" class=\"\"><l/></div>"));
    assert!(!t.contains("hx-swap-oob"));
}

#[test]
fn data_table_falls_back_to_first_view_and_marks_oob() {
    let t = data_table(&DataTable {
        uid: "",
        displays: vec![DataTableDisplay { name: "Cards".to_string(), html: "c".to_string() }],
        default_view: "Missing",
        oob: true,
        refresh_url: "/r/",
        ..Default::default()
    });
    assert!(t.starts_with("<div id=\"table-container\""));
    assert!(t.contains(" hx-swap-oob=\"true\""));
    assert!(t.contains(" hx-get=\"/r/\" hx-trigger=\"lariv-table-refresh-table-container from:document\""));
    assert!(!t.contains("<select"));
    assert!(t.contains("view !== 'Cards' }\" class=\"\">c</div>"));
}

#[test]
fn data_table_list_offers_grid_and_list() {
    let headers = [
        TableColumnHeader { key: "name", label: "Name", sort_url: None, push_url: false },
        TableColumnHeader { key: "email", label: "Email", sort_url: None, push_url: false },
    ];
    let rows = [TableRow { attrs: HtmlAttrs::new(), cells: vec!["Ann".to_string(), "a@x".to_string()] }];
    let t = data_table_list::<MainContentKey>("People", "", &headers, &rows, "");
    assert!(t.starts_with(&format!("<div id=\"{}\"", MainContentKey::ID)));
    assert!(t.contains("<option value=\"Grid\">Grid</option><option value=\"List\">List</option>"));
    assert!(t.contains("view !== 'List' }\" class=\"\">"));
    assert!(t.contains("view !== 'Grid' }\" class=\"hidden\">"));
    assert!(t.contains("Ann"));
}

#[test]
fn config_capability_finds_sections_by_tag() {
    let caps = ConfigCapability::new().prepend::<AppConfigTag, u32>(7).prepend::<ConfigTag, &str>("x");
    assert_eq!(*caps.get::<AppConfigTag, _>(), 7);
    assert_eq!(*caps.get::<ConfigTag, _>(), "x");
}

struct UserTableKey;

impl SwapKey for UserTableKey {
    const ID: &'static str = "user-table";
    const SELECTOR: &'static str = "#user-table";
}

#[test]
fn data_table_list_keeps_view_and_sort_per_table() {
    let headers = [
        TableColumnHeader { key: "Name", label: "Name", sort_url: Some("/users?sort=Name+ASC"), push_url: true },
        TableColumnHeader { key: "Email", label: "Email", sort_url: None, push_url: true },
    ];
    let rows = [TableRow { attrs: HtmlAttrs::new(), cells: vec!["Ada".to_string(), "ada@example.com".to_string()] }];
    let t = data_table_list::<UserTableKey>("Users", "", &headers, &rows, "");
    assert!(t.contains(UserTableKey::ID));
    assert!(t.contains(r#"data-col="Name""#));
    assert!(t.contains("isVisible('Name')"));
    assert!(t.contains("lariv.table.cols."));
    assert!(t.contains(&format!("lariv.table.{}.view", UserTableKey::ID)));
    assert!(t.contains(&format!("lariv.table.{}.sort", UserTableKey::ID)));
    assert!(t.contains("$persist"));
    assert!(t.contains("persistSortFromHref"));
    assert!(t.contains("restoreSort"));
    assert!(t.contains("toggle('Email')"));
}

#[test]
fn data_table_list_refresh_listens_for_its_own_event() {
    let r = lariv_rs::table_view::data_table_list_refresh::<UserTableKey>("Users", "", &[], &[], "", "/users/?page=1");
    assert!(r.contains("hx-get=\"/users/?page=1\""));
    assert!(r.contains("lariv-table-refresh-user-table from:document"));
    assert!(r.contains("hx-target=\"this\""));
    assert!(r.contains("hx-push-url=\"false\""));
}

#[test]
fn json_str_escapes_as_serde_json() {
    assert_eq!(lariv_rs::json::json_str("a\"b\\c\n\u{1}\u{7f}é"), "\"a\\\"b\\\\c\\n\\u0001\u{7f}é\"");
}
