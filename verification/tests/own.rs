use lariv_rs::apps::{AppTile, AppsCapability, AppsTag, PluginType, RegisterAppsHook};
use lariv_rs::capability::{App, CapStore, Cons, Nil, Tagged};
use std::marker::PhantomData;
use lariv_rs::attrs::HtmlAttrs;
use lariv_rs::breadcrumbs::{breadcrumbs, Crumb};
use lariv_rs::command::CommandCapability;
use lariv_rs::field::{field_markdown, field_phone, render_markdown, FieldMarkdown, FieldPhone};
use lariv_rs::form_attrs::{parse_form_attr_list, FormAttrEntry, FormAttrError, FormAttrValue, HintSource};
use lariv_rs::form_fields::{
    collect_file_names, kind_tag_and_model, prepare_field, RenderKind, SerdePlan, SerdeReader, SubmitKind, TypeShape, UploadKind,
    MISSING_WIDGET,
};
use lariv_rs::htmx::row_attr_select;
use lariv_rs::json::{json_str, parse_u64};
use lariv_rs::length::{
    format_nm, normalize_mm, parse_length, parse_mm, LengthError, LengthParse, LengthUnit,
};
use lariv_rs::main_args::{
    check_main_fn, parse_main_args, thread_name_or_default, MainArgEntry, MainArgValue, RuntimeFlavor,
};
use lariv_rs::markdown::{render_markdown_events, HeadingLevel, MdEvent, MdTag, MdTagEnd};
use lariv_rs::meets::{webrtc_video_stage, WebrtcVideoStage};
use lariv_rs::names::{humanize_label, to_pascal_html_name, to_rust_variant_name};
use lariv_rs::nav_origin::append_from_dashboard;
use lariv_rs::paths::{
    parse_path, resolve_params, route_options, route_path, splat_from, ParamValue, ResolveError, ResponseKind,
    RouteLineError, RouteOption,
};
use lariv_rs::route::trailing_slash;
use lariv_rs::slots::{SlotCapability, SlotKind};
use lariv_rs::table::next_sort_clause;
use lariv_rs::text::{decimal_string, escape_attr};
use lariv_rs::trigram::{text_search, SearchCondition, SearchScore};
use lariv_rs::vendor::apexcharts_script;
use lariv_rs::vendor::{etag, fnv1a_64};

// ----- laws on concrete values ---------------------------------------------

#[test]
fn trailing_slash_twice_is_once() {
    let once = trailing_slash("/users");
    assert_eq!(once, "/users/");
    assert_eq!(trailing_slash(&once), once);
}

fn sample_tile(key: &str, name: &str) -> AppTile {
    AppTile {
        key: key.into(),
        verbose_name: name.into(),
        href: format!("/{key}"),
        icon: "users".into(),
        plugin_type: PluginType::App,
        roles: vec![],
    }
}

#[test]
fn registering_an_app_twice_keeps_one_tile() {
    let once = AppsCapability::new().register(sample_tile("p_users", "Users"));
    let twice = AppsCapability::new()
        .register(sample_tile("p_users", "Users"))
        .register(sample_tile("p_users", "Users"));
    assert_eq!(once.visible_apps("Admin", true).len(), 1);
    assert_eq!(twice.visible_apps("Admin", true).len(), 1);
}

#[test]
fn attribute_set_then_get() {
    let a = HtmlAttrs::new().set("hx-get", "/a").set("class", "x").set("hx-get", "/b");
    assert_eq!(a.get("hx-get"), Some("/b".to_string()));
    assert_eq!(a.get("class"), Some("x".to_string()));
    assert_eq!(a.get("id"), None);
}

#[test]
fn escaped_attribute_has_no_raw_quote_or_angle() {
    let e = escape_attr("a\"b<c&d");
    assert_eq!(e, "a&quot;b&lt;c&amp;d");
}

#[test]
fn decimal_text_reads_back() {
    for n in [0u64, 7, 42, 1_000_000, u64::MAX] {
        assert_eq!(parse_u64(&decimal_string(n)), Some(n));
    }
    assert_eq!(parse_u64("+12"), Some(12));
    assert_eq!(parse_u64(""), None);
    assert_eq!(parse_u64("12a"), None);
    assert_eq!(parse_u64("18446744073709551616"), None);
}

#[test]
fn dashboard_origin_appended_once() {
    let once = append_from_dashboard("/crm/contacts/");
    assert_eq!(once, "/crm/contacts/?from=dashboard");
    assert_eq!(append_from_dashboard(&once), once);
    assert_eq!(append_from_dashboard("/dashboard/"), "/dashboard/");
}

#[test]
fn sort_cycles_ascending_descending_cleared() {
    assert_eq!(next_sort_clause("", "Name"), Some("Name ASC".to_string()));
    assert_eq!(next_sort_clause("Name ASC", "Name"), Some("Name DESC".to_string()));
    assert_eq!(next_sort_clause("Name DESC", "Name"), None);
    assert_eq!(next_sort_clause("Email DESC", "Name"), Some("Name ASC".to_string()));
}

#[test]
fn newest_command_is_dispatched() {
    let cmds = CommandCapability::new().prepend("serve", "old").prepend("migrate", "m").prepend("serve", "new");
    assert_eq!(cmds.dispatch("serve"), Ok(0));
    assert_eq!(cmds.dispatch("migrate"), Ok(1));
    assert_eq!(cmds.dispatch("seed"), Err("unknown command: seed".to_string()));
}

#[test]
fn replaced_slot_is_found_in_its_new_bucket() {
    let slots = SlotCapability::new().add("title", SlotKind::Head).add("menu", SlotKind::TopbarItems);
    assert_eq!(slots.get_slot("title"), Some(SlotKind::Head));
    let slots = slots.replace_slot("title", SlotKind::RightSidebar);
    assert_eq!(slots.get_slot("title"), Some(SlotKind::RightSidebar));
    assert_eq!(slots.get_slot("menu"), Some(SlotKind::TopbarItems));
    assert_eq!(slots.get_slot("none"), None);
}

const DASHBOARD: Crumb<'static> = Crumb { label: "Dashboard", href: Some("/dashboard/") };

#[test]
fn dashboard_crumb_prepended_when_from_dashboard() {
    let html = breadcrumbs(&[Crumb { label: "Blog", href: Some("/blog/") }], true);
    assert!(html.contains("hx-get=\"/dashboard/\""));
    let dash = html.find(">Dashboard</a>").expect("dashboard crumb");
    let blog = html.find(">Blog</a>").expect("blog crumb");
    assert!(dash < blog);
    let empty = breadcrumbs(&[], true);
    assert!(empty.contains(r#"class="breadcrumbs"#));
    assert!(empty.contains(">Dashboard</a>"));
}

#[test]
fn dashboard_crumb_not_duplicated() {
    let html = breadcrumbs(&[DASHBOARD], true);
    assert_eq!(html.matches(">Dashboard</a>").count(), 1);
    assert_eq!(html, breadcrumbs(&[DASHBOARD], false));
}

// ----- lengths -------------------------------------------------------------

#[test]
fn millimetre_text_round_trips() {
    for text in ["25.4", "0", "-3.5", "1234.000001", "999999999.999999"] {
        let mm = normalize_mm(text).unwrap();
        assert_eq!(normalize_mm(&mm), Ok(mm.clone()));
    }
    assert_eq!(normalize_mm(" 1,000.50 "), Ok("1000.5".to_string()));
    assert_eq!(normalize_mm(""), Ok(String::new()));
}

#[test]
fn length_parse_outcomes() {
    assert_eq!(parse_length("  ", LengthUnit::Millimetre), LengthParse::Empty);
    assert_eq!(parse_length("-", LengthUnit::Millimetre), LengthParse::Incomplete);
    assert_eq!(parse_length(".", LengthUnit::Millimetre), LengthParse::Incomplete);
    assert_eq!(parse_length("1.2.3", LengthUnit::Millimetre), LengthParse::Invalid);
    assert_eq!(parse_length("12a", LengthUnit::Millimetre), LengthParse::Invalid);
    assert_eq!(parse_length("1000000000", LengthUnit::Millimetre), LengthParse::TooLarge);
    assert_eq!(parse_length("1", LengthUnit::Inch), LengthParse::Nm(25_400_000));
    assert_eq!(parse_length("-2.5", LengthUnit::Centimetre), LengthParse::Nm(-25_000_000));
    // Half a nanometre rounds up.
    assert_eq!(parse_length("0.0000005", LengthUnit::Millimetre), LengthParse::Nm(1));
    assert_eq!(parse_mm("abc"), Err(LengthError::Invalid));
    assert_eq!(parse_mm("1e3"), Err(LengthError::Invalid));
    assert_eq!(normalize_mm("99999999999"), Err(LengthError::TooLarge));
}

#[test]
fn lengths_format_in_each_unit() {
    assert_eq!(format_nm(25_400_000, LengthUnit::Inch), "1");
    assert_eq!(format_nm(25_400_000, LengthUnit::Millimetre), "25.4");
    assert_eq!(format_nm(1_500_000_000, LengthUnit::Metre), "1.5");
    assert_eq!(format_nm(-304_800_000, LengthUnit::Foot), "-1");
    assert_eq!(format_nm(1, LengthUnit::Kilometre), "0.000000000001");
    assert_eq!(format_nm(0, LengthUnit::Centimetre), "0");
}

// ----- form attributes -----------------------------------------------------

fn entry(key: &str, value: FormAttrValue) -> FormAttrEntry {
    FormAttrEntry { key: key.to_string(), value }
}

#[test]
fn form_attrs_later_entry_wins() {
    let attrs = parse_form_attr_list(&vec![
        entry("label", FormAttrValue::Str("Page size".into())),
        entry("widget", FormAttrValue::Path("Select".into())),
        entry("required", FormAttrValue::Flag),
        entry("label", FormAttrValue::Str("Size".into())),
        entry("rows", FormAttrValue::Int(4)),
        entry("hint", FormAttrValue::Path("HINT_TEXT".into())),
    ])
    .unwrap();
    assert_eq!(attrs.label, Some("Size".to_string()));
    assert_eq!(attrs.widget, Some("Select".to_string()));
    assert!(attrs.required);
    assert!(!attrs.multiple);
    assert_eq!(attrs.rows, Some(4));
    assert_eq!(attrs.hint, Some(HintSource::Path("HINT_TEXT".to_string())));
    assert_eq!(attrs.name, None);
}

#[test]
fn form_attrs_refusals() {
    let err = |e: FormAttrEntry| parse_form_attr_list(&vec![e]).err();
    assert_eq!(err(entry("colour", FormAttrValue::Str("red".into()))), Some(FormAttrError::Unsupported));
    assert_eq!(err(entry("required", FormAttrValue::Str("yes".into()))), Some(FormAttrError::UnexpectedValue));
    assert_eq!(err(entry("label", FormAttrValue::Flag)), Some(FormAttrError::ExpectedValue));
    assert_eq!(err(entry("rows", FormAttrValue::Int(1 << 40))), Some(FormAttrError::RowsTooLarge));
    assert_eq!(err(entry("hint", FormAttrValue::Int(3))), Some(FormAttrError::BadHint));
    assert_eq!(FormAttrError::Unsupported.message(), "unsupported form attribute");
}

// ----- route paths ---------------------------------------------------------

#[test]
fn resolve_params_errors() {
    let dup = parse_path("/a/{id}/b/{id}");
    match resolve_params(&dup, &vec![]) {
        Err(e) => {
            assert!(matches!(e, ResolveError::DuplicateParam(ref n) if n == "id"));
            assert_eq!(e.message(), "duplicate path param `id`");
        }
        Ok(_) => panic!("duplicate accepted"),
    }
    let p = parse_path("/a/{id}");
    match resolve_params(&p, &vec!["slug".to_string()]) {
        Err(e) => assert_eq!(e.message(), "param `slug` is not in route path"),
        Ok(_) => panic!("unknown override accepted"),
    }
}

// ----- names ---------------------------------------------------------------

#[test]
fn form_names_from_snake_case() {
    assert_eq!(to_pascal_html_name("user_id"), "UserID");
    assert_eq!(to_pascal_html_name("avatar_url"), "AvatarURL");
    assert_eq!(to_pascal_html_name("first__name"), "FirstName");
    assert_eq!(to_rust_variant_name("page_size"), "PageSize");
    assert_eq!(humanize_label("page_size"), "page size");
}

// ----- outside calls -------------------------------------------------------

#[test]
fn json_string_literal() {
    assert_eq!(json_str("a\"b\\c"), "\"a\\\"b\\\\c\"");
    assert_eq!(json_str(""), "\"\"");
}

#[test]
fn row_select_detail_is_json() {
    let a = row_attr_select("customer", "42", "Acme");
    assert_eq!(
        a.get("@click"),
        Some(
            "$dispatch('fk-select', {\"display\":\"Acme\",\"name\":\"customer\",\"value\":42}); $event.currentTarget.closest('dialog.modal')?.remove()"
                .to_string()
        )
    );
    let b = row_attr_select("customer", "c-7", "Acme");
    assert!(b.get("@click").unwrap().contains("\"value\":\"c-7\""));
}

#[test]
fn fnv1a_known_values() {
    assert_eq!(fnv1a_64(""), 0xcbf29ce484222325);
    assert_eq!(fnv1a_64("a"), 0xaf63dc4c8601ec8c);
    assert_eq!(etag(0xab), "\"00000000000000ab\"");
}

#[test]
fn markdown_field_uses_pulldown_renderer() {
    assert_eq!(render_markdown("# Hi"), "<h1>Hi</h1>\n");
    let html = field_markdown(FieldMarkdown { value: "*x*", classes: "c" });
    assert!(html.starts_with("<div class=\"whitespace-pre-wrap"));
    assert!(html.contains("<em>x</em>"));
    assert_eq!(field_markdown(FieldMarkdown { value: "", classes: "c" }), "");
}

#[test]
fn phone_field_formats_or_reports() {
    let ok = field_phone(FieldPhone { value: "098765 43210", classes: "p" });
    assert_eq!(ok, "<div class=\"p\">+919876543210</div>");
    let bad = field_phone(FieldPhone { value: "x", classes: "p" });
    assert!(bad.contains("text-error"));
    assert!(bad.contains("not a number"));
}

// ----- markdown events -----------------------------------------------------

#[test]
fn markdown_headings_lists_and_escaping() {
    let events = vec![
        MdEvent::Start(MdTag::Heading { level: HeadingLevel::H1, id: None, classes: vec![] }),
        MdEvent::Text("Title".into()),
        MdEvent::End(MdTagEnd::Heading(HeadingLevel::H1)),
        MdEvent::Start(MdTag::Paragraph),
        MdEvent::Text("Hello ".into()),
        MdEvent::Html("<script>".into()),
        MdEvent::End(MdTagEnd::Paragraph),
        MdEvent::Start(MdTag::List(None)),
        MdEvent::Start(MdTag::Item),
        MdEvent::Text("item".into()),
        MdEvent::End(MdTagEnd::Item),
        MdEvent::End(MdTagEnd::List(false)),
        MdEvent::Start(MdTag::List(Some(1))),
        MdEvent::Start(MdTag::Item),
        MdEvent::Text("one".into()),
        MdEvent::End(MdTagEnd::Item),
        MdEvent::End(MdTagEnd::List(true)),
    ];
    let html = render_markdown_events(&events);
    assert!(html.contains("text-2xl font-bold"), "{html}");
    assert!(html.contains("list-disc"), "{html}");
    assert!(html.contains("list-decimal"), "{html}");
    assert!(html.contains("<p class=\"my-2"), "{html}");
    assert!(html.contains("&lt;script&gt;"), "{html}");
    assert!(!html.contains("<script>"), "{html}");
}

#[test]
fn markdown_links_open_in_new_tab() {
    let events = vec![
        MdEvent::Start(MdTag::Link { dest_url: "https://example.com".into(), title: String::new() }),
        MdEvent::Code("code".into()),
        MdEvent::End(MdTagEnd::Link),
    ];
    let html = render_markdown_events(&events);
    assert!(html.contains("font-mono"), "{html}");
    assert!(html.contains("link link-primary"), "{html}");
    assert!(html.contains("href=\"https://example.com\""), "{html}");
    assert!(html.contains("target=\"_blank\""), "{html}");
}

// ----- media ---------------------------------------------------------------

#[test]
fn webrtc_stage_defaults_codecs() {
    let html = webrtc_video_stage(
        WebrtcVideoStage {
            room_code: "abc",
            signaling_url: "/ws",
            joined_user_id: -7,
            ice_servers_json: "[]",
            video_codec_priority_json: "",
        },
        "/* client */",
    );
    assert!(html.starts_with("<script type=\"module\">/* client */</script>"));
    assert!(html.contains("data-joined-user-id=\"-7\""));
    assert!(html.contains("data-video-codecs=\"[&quot;AV1&quot;"));
    assert!(html.contains("mountStage($el)"));
}


// ----- text search plans ---------------------------------------------------

#[test]
fn postgres_search_ranks_by_word_similarity() {
    let cols = vec!["name".to_string()];
    let plan = text_search(true, &cols, "  Riv_er ").unwrap();
    assert_eq!(
        plan.conditions,
        vec![
            SearchCondition::WordSimilarity { column: "name".into(), needle: "riv_er".into() },
            SearchCondition::Contains { column: "name".into(), pattern: "%riv\\_er%".into() },
        ]
    );
    assert_eq!(plan.score, SearchScore::Similarity { column: "name".into(), needle: "riv_er".into() });
    let two = vec!["name".to_string(), "email".to_string()];
    let plan = text_search(true, &two, "a").unwrap();
    assert_eq!(plan.conditions.len(), 4);
    assert_eq!(plan.score, SearchScore::Greatest { columns: two.clone(), needle: "a".into() });
}

#[test]
fn other_backends_match_substrings_only() {
    let cols = vec!["name".to_string()];
    let plan = text_search(false, &cols, "Ab").unwrap();
    assert_eq!(plan.conditions, vec![SearchCondition::Contains { column: "name".into(), pattern: "%ab%".into() }]);
    assert_eq!(plan.score, SearchScore::Zero);
    assert!(text_search(true, &cols, "   ").is_none());
    assert!(text_search(true, &vec![], "x").is_none());
}

#[test]
fn apexcharts_guarded_once() {
    assert_eq!(apexcharts_script("X"), "<script>if(typeof ApexCharts==='undefined'){X}</script>");
}

// ----- entry-point attribute -----------------------------------------------

fn arg(key: &str, value: MainArgValue) -> MainArgEntry {
    MainArgEntry { key: key.to_string(), value }
}

#[test]
fn main_args_defaults_and_choices() {
    let args = parse_main_args(&vec![]).unwrap();
    assert_eq!(args.flavor, RuntimeFlavor::CurrentThread);
    assert_eq!(thread_name_or_default(&args), "lariv-server");
    let args = parse_main_args(&vec![
        arg("stack_size", MainArgValue::Expr("64 * 1024 * 1024".into())),
        arg("flavor", MainArgValue::Str("multi_thread".into())),
        arg("thread_name", MainArgValue::Str("web".into())),
    ])
    .unwrap();
    assert_eq!(args.stack_size, Some(MainArgValue::Expr("64 * 1024 * 1024".into())));
    assert_eq!(args.flavor, RuntimeFlavor::MultiThread);
    assert_eq!(thread_name_or_default(&args), "web");
}

#[test]
fn main_args_errors() {
    let err = |es: Vec<MainArgEntry>| parse_main_args(&es).err().unwrap();
    assert_eq!(
        err(vec![arg("stack_size", MainArgValue::Expr("1".into())), arg("stack_size", MainArgValue::Expr("2".into()))]),
        "duplicate `stack_size`"
    );
    assert_eq!(
        err(vec![arg("flavor", MainArgValue::Str("fast".into()))]),
        "unknown flavor `fast`; expected `current_thread` or `multi_thread`"
    );
    assert_eq!(err(vec![arg("thread_name", MainArgValue::Expr("NAME".into()))]), "expected string literal");
    assert_eq!(
        err(vec![arg("threads", MainArgValue::Expr("4".into()))]),
        "unknown attribute `threads`; expected `stack_size`, `flavor`, or `thread_name`"
    );
    assert_eq!(check_main_fn(false, "main"), Err("`#[lariv_rs::main]` must be applied to an `async fn`"));
    assert_eq!(check_main_fn(true, "start"), Err("`#[lariv_rs::main]` must be applied to a function named `main`"));
    assert_eq!(check_main_fn(true, "main"), Ok(()));
}

// ----- route line options --------------------------------------------------

#[test]
fn route_options_decide_response_and_params() {
    let opts = vec![RouteOption::Param("id".into()), RouteOption::Response("modal".into())];
    assert_eq!(route_options(false, &opts), Ok((ResponseKind::Modal, vec!["id".to_string()])));
    assert_eq!(route_options(false, &vec![]), Ok((ResponseKind::Pane, vec![])));
    assert_eq!(route_options(true, &vec![]), Err(RouteLineError::BareWithoutResponse));
    let dup = vec![RouteOption::Param("id".into()), RouteOption::Param("id".into())];
    assert_eq!(route_options(false, &dup), Err(RouteLineError::DuplicateParam));
    let two = vec![RouteOption::Response("file".into()), RouteOption::Response("raw".into())];
    assert_eq!(route_options(true, &two), Err(RouteLineError::DuplicateResponse));
    let bad = vec![RouteOption::Response("json".into())];
    assert_eq!(route_options(false, &bad), Err(RouteLineError::UnknownResponse));
    assert_eq!(RouteLineError::DuplicateParam.message(), "duplicate `param`");
}

// ----- form field plans ----------------------------------------------------

fn shape(last: Option<&str>, arg: Option<&str>) -> TypeShape {
    TypeShape { last: last.map(String::from), arg: arg.map(String::from), is_unit: false }
}

#[test]
fn foreign_key_field_plan() {
    let form = parse_form_attr_list(&vec![
        entry("widget", FormAttrValue::Path("widgets::ForeignKey".into())),
        entry("route", FormAttrValue::Path("UsersPickerRoute".into())),
    ])
    .unwrap();
    let plan = prepare_field("owner_id", &form, &shape(Some("Option"), Some("i64"))).unwrap();
    assert_eq!(plan.html_name, "OwnerID");
    assert_eq!(plan.label, "OwnerID");
    assert_eq!(plan.render, RenderKind::ForeignKey);
    assert_eq!(plan.serde, SerdePlan::Read { default: true, with: Some(SerdeReader::EmptyStrAsNone) });
    assert_eq!(plan.submit, SubmitKind::Declared);
    assert_eq!(plan.upload, UploadKind::NoUpload);
    assert!(!plan.skip_deser);
    assert_eq!(SerdeReader::EmptyStrAsNone.path(), "::lariv_rs::html_form::empty_str_as_none");
}

#[test]
fn upload_and_named_fields() {
    let form = parse_form_attr_list(&vec![
        entry("widget", FormAttrValue::Path("FileInput".into())),
        entry("name", FormAttrValue::Str("Attachments".into())),
        entry("label", FormAttrValue::Str("Files".into())),
    ])
    .unwrap();
    let files = prepare_field("files", &form, &shape(Some("Vec"), Some("Upload"))).unwrap();
    assert_eq!(files.html_name, "Attachments");
    assert_eq!(files.label, "Files");
    assert_eq!(files.upload, UploadKind::Many);
    assert!(files.multiple);
    assert!(files.skip_deser);
    assert_eq!(files.serde, SerdePlan::Skip);
    assert_eq!(files.submit, SubmitKind::UploadedFiles);

    let plain = parse_form_attr_list(&vec![entry("widget", FormAttrValue::Path("Text".into()))]).unwrap();
    let title = prepare_field("page_title", &plain, &shape(Some("String"), None)).unwrap();
    assert_eq!(title.html_name, "PageTitle");
    assert_eq!(title.serde, SerdePlan::Read { default: true, with: None });
    let avatar = prepare_field("avatar", &plain, &shape(Some("Upload"), None)).unwrap();
    let (ones, manys) = collect_file_names(&vec![title, files, avatar]);
    assert_eq!(ones, vec!["Avatar".to_string()]);
    assert_eq!(manys, vec!["Attachments".to_string()]);

    let none = parse_form_attr_list(&vec![]).unwrap();
    assert_eq!(prepare_field("x", &none, &shape(None, None)).err(), Some(MISSING_WIDGET));
}

#[test]
fn kind_model_name_lowercases_first_letter() {
    assert_eq!(kind_tag_and_model(None), ("Kind".to_string(), "kind".to_string()));
    assert_eq!(kind_tag_and_model(Some("PaymentMode")), ("PaymentMode".to_string(), "paymentMode".to_string()));
    assert_eq!(kind_tag_and_model(Some("")), (String::new(), "kind".to_string()));
}

#[test]
fn splat_route_path_reads_back_its_tail() {
    let parsed = parse_path("/files/{*path}");
    let p = route_path(&parsed, &vec![ParamValue::Many(splat_from("docs/a.txt"))]);
    assert_eq!(p, "/files/docs/a.txt");
    assert_eq!(route_path(&parsed, &vec![ParamValue::Many(splat_from(""))]), "/files");
    let root = parse_path("/{*rest}");
    assert_eq!(route_path(&root, &vec![ParamValue::Many(splat_from("x/y"))]), "/x/y");
    assert_eq!(route_path(&root, &vec![ParamValue::Many(splat_from(""))]), "/");
}

#[test]
fn timezone_rows_sort_and_keep_every_name() {
    let names = vec!["Europe/Paris".to_string(), "Asia/Kolkata".to_string(), "Europe/Paris".to_string()];
    let rows = lariv_rs::datetime::timezone_rows(&names);
    let keys: Vec<&str> = rows.iter().map(|r| r.0.as_str()).collect();
    assert_eq!(keys, vec!["Asia/Kolkata", "Europe/Paris", "Europe/Paris"]);
    assert!(rows.iter().all(|r| r.0 == r.1));
    let all = lariv_rs::datetime::timezone_choices();
    assert!(all.iter().any(|r| r.0 == "Asia/Kolkata"));
    assert!(all.windows(2).all(|w| w[0].0 < w[1].0));
    assert_eq!(all.len(), lariv_rs::datetime::TZ_ZONE_COUNT);
}

#[test]
fn ident_rejects_injection() {
    assert!(lariv_rs::trigram::is_sql_ident("name"));
    assert!(!lariv_rs::trigram::is_sql_ident("name; drop"));
}

#[test]
fn sort_indicator_agrees_with_the_next_click() {
    use_sort_case("", "Name", "", Some("Name ASC"));
    use_sort_case("Email ASC", "Name", "", Some("Name ASC"));
    use_sort_case("Name ASC", "Name", " ▲", Some("Name DESC"));
    use_sort_case("name desc", "Name", " ▼", None);
}

fn use_sort_case(current: &str, key: &str, arrow: &str, next: Option<&str>) {
    assert_eq!(lariv_rs::table::sort_indicator(current, key), arrow);
    assert_eq!(lariv_rs::table::next_sort_clause(current, key).as_deref(), next);
}

#[test]
fn column_sort_url_keeps_other_pairs_in_order() {
    let u = lariv_rs::table::column_sort_url("/users?q=ada&page=3&sort=Email+ASC&flag&tab=all", "Name", "");
    assert_eq!(u, "/users?q=ada&tab=all&page=1&sort=Name+ASC");
    let c = lariv_rs::table::column_sort_url("/users", "Name", "Name DESC");
    assert_eq!(c, "/users?page=1");
}

#[test]
fn normalized_nav_paths_are_stable() {
    for s in ["/users/?page=2", "/", "/a//", "//", "/x?y"] {
        let r = lariv_rs::menu::normalize_nav_path(s);
        assert_eq!(lariv_rs::menu::normalize_nav_path(&r), r);
        assert!(!r.contains('?'));
        assert!(s.starts_with(r.as_str()));
    }
    assert_eq!(lariv_rs::menu::normalize_nav_path("/users/?page=2"), "/users");
    assert_eq!(lariv_rs::menu::normalize_nav_path("/"), "/");
}

#[test]
fn escape_attr_keeps_gt_and_reads_back() {
    let e = escape_attr(r#"a&b"c<d>"#);
    assert_eq!(e, "a&amp;b&quot;c&lt;d>");
    assert_eq!(e.replace("&quot;", "\"").replace("&lt;", "<").replace("&amp;", "&"), r#"a&b"c<d>"#);
}

#[test]
fn parsed_path_segments_spell_the_template() {
    let p = parse_path("/files/{id}/x/{*rest}");
    let mut text = String::new();
    for s in &p.segments {
        match s {
            lariv_rs::paths::PathSegment::Static(t) => text.push_str(t),
            lariv_rs::paths::PathSegment::Param { name, splat } => {
                text.push('{');
                if *splat {
                    text.push('*');
                }
                text.push_str(name);
                text.push('}');
            },
        }
    }
    assert_eq!(text, "/files/{id}/x/{*rest}");
}

#[test]
fn ascii_names_are_fully_determined() {
    assert_eq!(to_rust_variant_name("client_id"), "ClientId");
    assert_eq!(lariv_rs::trigram::like_contains_pattern("Ab_%"), "%ab\\_\\%%");
}

struct UsersPlugin;
struct NotesPlugin;

impl lariv_rs::apps::RegisterApps<UsersPlugin> for AppsCapability {
    // A specification function: compiled code never calls it.
    fn registered(self) -> Self {
        unreachable!()
    }

    fn register_apps(self) -> Self {
        self.register(sample_tile("p_users", "Users"))
    }
}

impl lariv_rs::apps::RegisterApps<NotesPlugin> for AppsCapability {
    // A specification function: compiled code never calls it.
    fn registered(self) -> Self {
        unreachable!()
    }

    fn register_apps(self) -> Self {
        self.register(sample_tile("p_notes", "Notes"))
    }
}

#[test]
fn resolve_hooks_registers_each_plugin_tail_first() {
    let hooks = Cons {
        head: Tagged::<UsersPlugin, _>::new(RegisterAppsHook::<UsersPlugin> { plugin: PhantomData }),
        tail: Cons { head: Tagged::<NotesPlugin, _>::new(RegisterAppsHook::<NotesPlugin> { plugin: PhantomData }), tail: Nil },
    };
    let store: CapStore<AppsTag, _, AppsCapability> = CapStore::new(hooks, AppsCapability::new());
    let resolved = store.resolve_hooks();
    let keys: Vec<&str> = resolved.items.apps().iter().map(|a| a.key.as_str()).collect();
    assert_eq!(keys, vec!["p_notes", "p_users"]);
}

#[test]
fn pagination_window_holds_current_and_both_ends() {
    let es = lariv_rs::table::pagination_pages("/users/?page=1", 6, 12, true);
    assert_eq!(es.first().unwrap().4, "1");
    assert_eq!(es.last().unwrap().4, "12");
    let active: Vec<&str> = es.iter().filter(|e| e.3).map(|e| e.4.as_str()).collect();
    assert_eq!(active, vec!["6"]);
    let labels: Vec<&str> = es.iter().filter(|e| !e.0).map(|e| e.4.as_str()).collect();
    assert_eq!(labels, vec!["1", "4", "5", "6", "7", "8", "12"]);
}

#[test]
fn with_apps_prepends_an_empty_catalog() {
    let app = lariv_rs::apps::with_apps(App::new());
    assert_eq!(app.capabilities.head.items.len(), 0);
    let Nil = app.capabilities.tail;
}
