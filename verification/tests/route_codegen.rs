use lariv_rs::paths::{HttpMethod, ResolveError, ResponseKind};
use lariv_rs::plugin_routes::RouteSpec;
use lariv_rs::route_codegen::route_tag_text;

fn spec(tag: &str, path: &str, method: HttpMethod, response: ResponseKind, overrides: &[&str]) -> RouteSpec {
    RouteSpec {
        method,
        bare: false,
        tag: tag.to_string(),
        path: path.to_string(),
        handler: "handlers::h".to_string(),
        response,
        param_overrides: overrides.iter().map(|s| s.to_string()).collect(),
    }
}

const SHARED: &str = "    pub fn url(self) -> ::std::string::String {\n        ::lariv_rs::http::route_tag::trailing_slash(&self.path())\n    }\n    pub fn with_query(self) -> ::lariv_rs::http::RouteQueryBuilder<Self> {\n        ::lariv_rs::http::RouteQueryBuilder::new(self)\n    }\n";

fn impls(tag: &str, path: &str, names: &str) -> String {
    format!(
        "impl ::lariv_rs::http::RouteTag for {tag} {{\n    const PATH: &'static str = \"{path}\";\n    const PARAMS: &'static [&'static str] = &[{names}];\n}}\nimpl ::lariv_rs::http::RouteUrl for {tag} {{\n    fn path(self) -> ::std::string::String {{\n        <Self>::path(self)\n    }}\n    fn url(self) -> ::std::string::String {{\n        <Self>::url(self)\n    }}\n}}\n"
    )
}

#[test]
fn unit_route_tag_is_a_unit_struct() {
    let r = spec("UsersList", "/users/", HttpMethod::Get, ResponseKind::Pane, &[]);
    let t = route_tag_text(&r, &vec![], &vec![]).ok().unwrap();
    let expected = format!(
        "#[derive(::core::clone::Clone, ::core::marker::Copy, ::core::default::Default)]\npub struct UsersList;\nimpl UsersList {{\n    pub const PATH: &'static str = \"/users/\";\n    pub fn path(self) -> ::std::string::String {{\n        Self::PATH.to_owned()\n    }}\n{SHARED}}}\n{}impl ::lariv_rs::http::AppPaneGet for UsersList {{}}\n",
        impls("UsersList", "/users/", "")
    );
    assert_eq!(t, expected);
}

#[test]
fn id_route_tag_has_i64_field_and_formats_path() {
    let r = spec("UserEdit", "/users/u/{id}/edit", HttpMethod::Post, ResponseKind::Pane, &[]);
    let t = route_tag_text(&r, &vec![], &vec![]).ok().unwrap();
    let expected = format!(
        "#[derive(::core::clone::Clone, ::core::fmt::Debug)]\npub struct UserEdit {{\n    pub id: i64,\n}}\nimpl UserEdit {{\n    pub const PATH: &'static str = \"/users/u/{{id}}/edit\";\n    pub fn new(id: i64, ) -> Self {{\n        Self {{ id: id, }}\n    }}\n    pub fn path(self) -> ::std::string::String {{\n        ::std::format!(\"/users/u/{{}}/edit\", self.id)\n    }}\n{SHARED}}}\n{}impl ::lariv_rs::http::AppPanePost for UserEdit {{}}\n",
        impls("UserEdit", "/users/u/{id}/edit", "\"id\", ")
    );
    assert_eq!(t, expected);
}

#[test]
fn splat_route_tag_joins_pieces_and_converts_from_string() {
    let r = spec("PwaAsset", "/static/pwa/{*path}", HttpMethod::Get, ResponseKind::File, &[]);
    let t = route_tag_text(&r, &vec![], &vec![]).ok().unwrap();
    assert!(t.contains("    pub path: ::std::vec::Vec<::std::string::String>,\n"));
    assert!(t.contains("{ let tail = self.path.join(\"/\"); if tail.is_empty() { \"/static/pwa\".to_owned() } else { ::std::format!(::core::concat!(\"/static/pwa\", \"/{}\"), tail) } }"));
    assert!(t.contains("impl ::core::convert::From<::std::string::String> for PwaAsset {"));
    assert!(t.ends_with("impl ::lariv_rs::http::FileDownloadGet for PwaAsset {}\n"));
}

#[test]
fn override_types_and_fk_select_markers() {
    let r = spec("PickUser", "/pick/{slug}", HttpMethod::Get, ResponseKind::FkSelect, &["slug"]);
    let t = route_tag_text(&r, &vec!["u32".to_string()], &vec!["UsersTable".to_string(), "PickModal".to_string()])
        .ok()
        .unwrap();
    assert!(t.contains("    pub slug: u32,\n"));
    assert!(t.contains("pub fn new(slug: u32, ) -> Self"));
    assert!(t.ends_with(
        "impl ::lariv_rs::http::AppPaneGet for PickUser {}\nimpl ::lariv_rs::http::FragmentGet<UsersTable> for PickUser {}\nimpl ::lariv_rs::http::FkSelectGet<UsersTable, PickModal> for PickUser {}\n"
    ));
}

#[test]
fn unresolvable_route_tag_reports_the_param() {
    let r = spec("Bad", "/a/{id}", HttpMethod::Get, ResponseKind::Pane, &["other"]);
    assert_eq!(route_tag_text(&r, &vec!["u8".to_string()], &vec![]).err(), Some(ResolveError::NotInPath("other".to_string())));
    let d = spec("Dup", "/a/{id}/{id}", HttpMethod::Get, ResponseKind::Pane, &[]);
    assert_eq!(route_tag_text(&d, &vec![], &vec![]).err(), Some(ResolveError::DuplicateParam("id".to_string())));
}
