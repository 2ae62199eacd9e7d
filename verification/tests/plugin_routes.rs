use lariv_rs::paths::{HttpMethod, ResponseKind, RouteLineError, RouteOption, SlotsMode};
use lariv_rs::plugin_routes::{
    parse_pages, parse_plugin_routes, parse_route_line, parse_routes, PageLine, PluginRoutesError, PluginSection,
    RouteLineInput,
};

fn line(method: &str, bare: bool, options: Vec<RouteOption>) -> RouteLineInput {
    RouteLineInput {
        method: method.to_string(),
        tag: "UserEdit".to_string(),
        path: "/users/u/{id}/edit".to_string(),
        bare,
        handler: "handlers::edit".to_string(),
        options,
    }
}

fn page(kind: &str) -> PageLine {
    PageLine {
        kind: kind.to_string(),
        idx: "I0".to_string(),
        p: "P0".to_string(),
        page_tag: "UsersPage".to_string(),
        page_ty: "UsersList".to_string(),
    }
}

#[test]
fn route_line_defaults_to_pane() {
    let r = parse_route_line(&line("get", false, vec![])).ok().unwrap();
    assert_eq!(r.method, HttpMethod::Get);
    assert_eq!(r.response, ResponseKind::Pane);
    assert!(r.param_overrides.is_empty());
    assert!(!r.bare);
    assert_eq!(r.tag, "UserEdit");
    assert_eq!(r.path, "/users/u/{id}/edit");
    assert_eq!(r.handler, "handlers::edit");
}

#[test]
fn route_line_reads_options() {
    let opts = vec![RouteOption::Param("id".to_string()), RouteOption::Response("file".to_string())];
    let r = parse_route_line(&line("post", true, opts)).ok().unwrap();
    assert_eq!(r.method, HttpMethod::Post);
    assert_eq!(r.response, ResponseKind::File);
    assert_eq!(r.param_overrides, vec!["id".to_string()]);
    assert!(r.bare);
}

#[test]
fn route_line_checks_the_method_first() {
    let e = parse_route_line(&line("put", true, vec![])).err().unwrap();
    assert_eq!(e, RouteLineError::UnknownMethod);
    assert_eq!(e.message(), "expected `get` or `post`");
    let b = parse_route_line(&line("get", true, vec![])).err().unwrap();
    assert_eq!(b, RouteLineError::BareWithoutResponse);
}

#[test]
fn routes_stop_at_the_first_refused_line() {
    let lines = vec![
        line("get", false, vec![]),
        line("post", false, vec![RouteOption::Response("nope".to_string())]),
        line("put", false, vec![]),
    ];
    assert_eq!(parse_routes(&lines).err(), Some(RouteLineError::UnknownResponse));
    let ok = parse_routes(&vec![line("get", false, vec![]), line("post", false, vec![])]).ok().unwrap();
    assert_eq!(ok.len(), 2);
    assert_eq!(ok[1].method, HttpMethod::Post);
}

#[test]
fn pages_accept_pane_and_page_only() {
    let v = parse_pages(&vec![page("pane"), page("page")]).ok().unwrap();
    assert!(v[0].pane);
    assert!(!v[1].pane);
    assert_eq!(v[1].page_tag, "UsersPage");
    let e = parse_pages(&vec![page("pane"), page("panel")]).err().unwrap();
    assert_eq!(e, PluginRoutesError::PageKind);
    assert_eq!(e.message(), "expected `pane` or `page`");
}

#[test]
fn declaration_reads_every_section() {
    let sections = vec![
        PluginSection::Plugin("UsersPlugin".to_string()),
        PluginSection::Proof("UsersProof".to_string()),
        PluginSection::Slots("clone".to_string()),
        PluginSection::Pages(vec![page("pane")]),
        PluginSection::Routes(vec![line("get", false, vec![])]),
        PluginSection::Plugin("UsersPluginV2".to_string()),
    ];
    let d = parse_plugin_routes(&sections).ok().unwrap();
    assert_eq!(d.plugin, "UsersPluginV2");
    assert_eq!(d.proof.as_deref(), Some("UsersProof"));
    assert_eq!(d.slots, SlotsMode::Clone);
    assert_eq!(d.pages.len(), 1);
    assert_eq!(d.routes.len(), 1);
}

#[test]
fn declaration_defaults_slots_and_requires_plugin_and_routes() {
    let d = parse_plugin_routes(&vec![
        PluginSection::Plugin("P".to_string()),
        PluginSection::Routes(vec![line("get", false, vec![])]),
    ])
    .ok()
    .unwrap();
    assert_eq!(d.slots, SlotsMode::Fold);
    assert!(d.proof.is_none());
    assert!(d.pages.is_empty());
    let no_plugin = parse_plugin_routes(&vec![PluginSection::Routes(vec![line("get", false, vec![])])]);
    assert_eq!(no_plugin.err(), Some(PluginRoutesError::MissingPlugin));
    let no_routes = parse_plugin_routes(&vec![PluginSection::Plugin("P".to_string())]);
    assert_eq!(no_routes.err(), Some(PluginRoutesError::MissingRoutes));
    assert_eq!(parse_plugin_routes(&vec![]).err(), Some(PluginRoutesError::MissingPlugin));
    assert_eq!(PluginRoutesError::MissingRoutes.message(), "missing `routes:`");
}

#[test]
fn declaration_refusals() {
    let slots = parse_plugin_routes(&vec![PluginSection::Slots("fold".to_string())]);
    assert_eq!(slots.err(), Some(PluginRoutesError::SlotsNotClone));
    let other = parse_plugin_routes(&vec![
        PluginSection::Plugin("P".to_string()),
        PluginSection::Other("layout".to_string()),
    ]);
    assert_eq!(other.err(), Some(PluginRoutesError::UnknownKey));
    let route = parse_plugin_routes(&vec![
        PluginSection::Plugin("P".to_string()),
        PluginSection::Routes(vec![line("get", true, vec![])]),
    ]);
    let e = route.err().unwrap();
    assert_eq!(e, PluginRoutesError::Route(RouteLineError::BareWithoutResponse));
    assert!(e.message().starts_with("bare route must specify a response kind"));
}
