//! The Rust items that `define_plugin_routes!` writes for one route line: the
//! route tag struct, its `PATH` / `path()` / `url()` / `with_query()` items,
//! the `RouteTag` and `RouteUrl` impls and the marker traits of its response
//! kind, as source text.

use vstd::prelude::*;

use crate::paths::{
    resolve_params, resolve_spec, response_markers, response_markers_spec, static_text,
    ParamType, PathSegment, ResolveError, ResolveErrorView, ResolvedParam, ResolvedType, RouteMarker, SegmentView,
    parse_path, segments_of,
};
use crate::plugin_routes::{names_view, RouteSpec};
use crate::text::{chars_eq, chars_of, push_char, push_str, string_of, to_owned, trim_end_char, trim_end_char_exec};

verus! {

// ---------------------------------------------------------------------------
// String literals
// ---------------------------------------------------------------------------

/// The escaped body of a Rust string literal: `\` and `"` get a backslash.
pub open spec fn str_lit_body(s: Seq<char>) -> Seq<char>
    decreases s.len(),
{
    if s.len() == 0 {
        seq![]
    } else {
        str_lit_body(s.drop_last()) + (if s.last() == '\\' || s.last() == '"' {
            seq!['\\', s.last()]
        } else {
            seq![s.last()]
        })
    }
}

/// `s` written as a Rust string literal.
pub open spec fn str_lit(s: Seq<char>) -> Seq<char> {
    seq!['"'] + str_lit_body(s) + seq!['"']
}

/// Append `s` as a Rust string literal.
pub(crate) fn push_str_lit(out: &mut String, s: &str)
    ensures
        final(out)@ == old(out)@ + str_lit(s@),
{
    let cs = chars_of(s);
    let ghost start = out@;
    push_char(out, '"');
    let mut i: usize = 0;
    while i < cs.len()
        invariant
            i <= cs.len(),
            cs@ == s@,
            out@ == start + seq!['"'] + str_lit_body(cs@.take(i as int)),
        decreases cs.len() - i,
    {
        let c = cs[i];
        assert(cs@.take(i + 1).drop_last() =~= cs@.take(i as int));
        assert(cs@.take(i + 1).last() == c);
        if c == '\\' || c == '"' {
            push_char(out, '\\');
            push_char(out, c);
            assert(out@ =~= start + seq!['"'] + str_lit_body(cs@.take(i + 1)));
        } else {
            push_char(out, c);
            assert(out@ =~= start + seq!['"'] + str_lit_body(cs@.take(i + 1)));
        }
        i = i + 1;
    }
    assert(cs@.take(cs.len() as int) =~= s@);
    push_char(out, '"');
    assert(out@ =~= start + str_lit(s@));
}

// ---------------------------------------------------------------------------
// Placeholder lists
// ---------------------------------------------------------------------------

/// A resolved placeholder as a value: name, type source, splat.
pub type ParamView = (Seq<char>, ResolvedType, bool);

/// The Rust type of a placeholder's field; `ots[j]` is the type written with
/// the route's `j`-th `param` override (nothing where no type was given).
pub open spec fn param_type_text(t: ResolvedType, ots: Seq<Seq<char>>) -> Seq<char> {
    match t {
        ResolvedType::Default(ParamType::Strings) => "::std::vec::Vec<::std::string::String>"@,
        ResolvedType::Default(ParamType::Int) => "i64"@,
        ResolvedType::Default(ParamType::Text) => "::std::string::String"@,
        ResolvedType::Override(j) => if j < ots.len() {
            ots[j as int]
        } else {
            seq![]
        },
    }
}

fn push_param_type(out: &mut String, t: ResolvedType, override_types: &Vec<String>)
    ensures
        final(out)@ == old(out)@ + param_type_text(t, names_view(override_types@)),
{
    match t {
        ResolvedType::Default(ParamType::Strings) => push_str(out, "::std::vec::Vec<::std::string::String>"),
        ResolvedType::Default(ParamType::Int) => push_str(out, "i64"),
        ResolvedType::Default(ParamType::Text) => push_str(out, "::std::string::String"),
        ResolvedType::Override(j) => {
            if j < override_types.len() {
                push_str(out, override_types[j].as_str());
            } else {
                assert(out@ =~= out@ + Seq::<char>::empty());
            }
        },
    }
}

/// The ways a route's placeholders are listed in the generated items.
#[derive(Debug, Clone, Copy, PartialEq, Eq, Structural)]
pub enum ListForm {
    /// `    pub name: Type,` lines of the struct.
    Fields,
    /// `name: Type, ` parameters of `new`.
    NewParams,
    /// `name: name, ` field initialisers of `new`.
    Inits,
    /// `"name", ` entries of `RouteTag::PARAMS`.
    Names,
}

/// One placeholder in the form `form`.
pub open spec fn param_item_text(p: ParamView, ots: Seq<Seq<char>>, form: ListForm) -> Seq<char> {
    match form {
        ListForm::Fields => "    pub "@ + p.0 + ": "@ + param_type_text(p.1, ots) + ",\n"@,
        ListForm::NewParams => p.0 + ": "@ + param_type_text(p.1, ots) + ", "@,
        ListForm::Inits => p.0 + ": "@ + p.0 + ", "@,
        ListForm::Names => str_lit(p.0) + ", "@,
    }
}

/// All placeholders, in order, in the form `form`.
pub open spec fn param_list_text(ps: Seq<ParamView>, ots: Seq<Seq<char>>, form: ListForm) -> Seq<char>
    decreases ps.len(),
{
    if ps.len() == 0 {
        seq![]
    } else {
        param_list_text(ps.drop_last(), ots, form) + param_item_text(ps.last(), ots, form)
    }
}

fn push_param_item(out: &mut String, p: &ResolvedParam, override_types: &Vec<String>, form: ListForm)
    ensures
        final(out)@ == old(out)@ + param_item_text(p@, names_view(override_types@), form),
{
    let ghost start = out@;
    let ghost ots = names_view(override_types@);
    match form {
        ListForm::Fields => {
            push_str(out, "    pub ");
            push_str(out, p.name.as_str());
            push_str(out, ": ");
            push_param_type(out, p.ty, override_types);
            push_str(out, ",\n");
        },
        ListForm::NewParams => {
            push_str(out, p.name.as_str());
            push_str(out, ": ");
            push_param_type(out, p.ty, override_types);
            push_str(out, ", ");
        },
        ListForm::Inits => {
            push_str(out, p.name.as_str());
            push_str(out, ": ");
            push_str(out, p.name.as_str());
            push_str(out, ", ");
        },
        ListForm::Names => {
            push_str_lit(out, p.name.as_str());
            push_str(out, ", ");
        },
    }
    assert(out@ =~= start + param_item_text(p@, ots, form));
}

fn push_param_list(out: &mut String, ps: &Vec<ResolvedParam>, override_types: &Vec<String>, form: ListForm)
    ensures
        final(out)@ == old(out)@ + param_list_text(
            ps@.map_values(|p: ResolvedParam| p@),
            names_view(override_types@),
            form,
        ),
{
    let ghost start = out@;
    let ghost pv = ps@.map_values(|p: ResolvedParam| p@);
    let ghost ots = names_view(override_types@);
    let mut i: usize = 0;
    while i < ps.len()
        invariant
            i <= ps.len(),
            pv == ps@.map_values(|p: ResolvedParam| p@),
            ots == names_view(override_types@),
            out@ == start + param_list_text(pv.take(i as int), ots, form),
        decreases ps.len() - i,
    {
        assert(pv.take(i + 1).drop_last() =~= pv.take(i as int));
        assert(pv.take(i + 1).last() == ps@[i as int]@);
        push_param_item(out, &ps[i], override_types, form);
        assert(out@ =~= start + param_list_text(pv.take(i + 1), ots, form));
        i = i + 1;
    }
    assert(pv.take(ps.len() as int) =~= pv);
}

// ---------------------------------------------------------------------------
// The path body
// ---------------------------------------------------------------------------

/// The `format!` template of a path: literal text kept, each placeholder `{}`.
pub open spec fn fmt_text(segs: Seq<SegmentView>) -> Seq<char>
    decreases segs.len(),
{
    if segs.len() == 0 {
        seq![]
    } else {
        fmt_text(segs.drop_last()) + match segs.last() {
            SegmentView::Lit(t) => t,
            SegmentView::Param(_, _) => "{}"@,
        }
    }
}

/// The `format!` arguments of a path: each placeholder's field, a splat's
/// pieces joined by `/`.
pub open spec fn format_args_text(segs: Seq<SegmentView>) -> Seq<char>
    decreases segs.len(),
{
    if segs.len() == 0 {
        seq![]
    } else {
        format_args_text(segs.drop_last()) + match segs.last() {
            SegmentView::Lit(_) => seq![],
            SegmentView::Param(n, false) => ", self."@ + n,
            SegmentView::Param(n, true) => ", self."@ + n + ".join(\"/\")"@,
        }
    }
}

/// The body of the generated `path()`. A route whose one placeholder is a
/// splat joins the splat's pieces onto its static prefix (`/` for none);
/// any other route formats its template.
pub open spec fn path_body_text(segs: Seq<SegmentView>, ps: Seq<ParamView>) -> Seq<char> {
    if ps.len() == 1 && ps[0].2 {
        let prefix = static_text(segs);
        if prefix.len() == 0 || prefix == "/"@ {
            "{ let tail = self."@ + ps[0].0
                + ".join(\"/\"); if tail.is_empty() { \"/\".to_owned() } else { format!(\"/{tail}\") } }"@
        } else {
            let p = str_lit(trim_end_char(prefix, '/'));
            "{ let tail = self."@ + ps[0].0 + ".join(\"/\"); if tail.is_empty() { "@ + p
                + ".to_owned() } else { ::std::format!(::core::concat!("@ + p + ", \"/{}\"), tail) } }"@
        }
    } else {
        "::std::format!("@ + str_lit(fmt_text(segs)) + format_args_text(segs) + ")"@
    }
}

/// The static text of the segments, as `static_text` reads it.
fn static_prefix(segments: &Vec<PathSegment>) -> (r: String)
    ensures
        r@ == static_text(segments@.map_values(|s: PathSegment| s@)),
{
    let ghost segs = segments@.map_values(|s: PathSegment| s@);
    let mut prefix = String::new();
    let mut i: usize = 0;
    assert(segs.subrange(0, segs.len() as int) == segs);
    while i < segments.len()
        invariant
            i <= segments.len(),
            segs == segments@.map_values(|s: PathSegment| s@),
            prefix@ + static_text(segs.subrange(i as int, segs.len() as int)) == static_text(segs),
        decreases segments.len() - i,
    {
        let ghost rest = segs.subrange(i as int, segs.len() as int);
        assert(rest.drop_first() == segs.subrange(i + 1, segs.len() as int));
        assert(rest[0] == segs[i as int]);
        match &segments[i] {
            PathSegment::Static(t) => push_str(&mut prefix, t.as_str()),
            PathSegment::Param { .. } => {},
        }
        i = i + 1;
    }
    assert(segs.subrange(i as int, segs.len() as int) =~= Seq::<SegmentView>::empty());
    assert(prefix@ + Seq::<char>::empty() =~= prefix@);
    prefix
}

/// The `format!` template and arguments of the segments.
fn format_parts(segments: &Vec<PathSegment>) -> (r: (String, String))
    ensures
        r.0@ == fmt_text(segments@.map_values(|s: PathSegment| s@)),
        r.1@ == format_args_text(segments@.map_values(|s: PathSegment| s@)),
{
    let ghost segs = segments@.map_values(|s: PathSegment| s@);
    let mut fmt = String::new();
    let mut args = String::new();
    let mut i: usize = 0;
    while i < segments.len()
        invariant
            i <= segments.len(),
            segs == segments@.map_values(|s: PathSegment| s@),
            fmt@ == fmt_text(segs.take(i as int)),
            args@ == format_args_text(segs.take(i as int)),
        decreases segments.len() - i,
    {
        assert(segs.take(i + 1).drop_last() =~= segs.take(i as int));
        assert(segs.take(i + 1).last() == segs[i as int]);
        let ghost f0 = fmt@;
        let ghost a0 = args@;
        match &segments[i] {
            PathSegment::Static(t) => {
                push_str(&mut fmt, t.as_str());
                assert(args@ =~= a0 + Seq::<char>::empty());
            },
            PathSegment::Param { name, splat } => {
                push_str(&mut fmt, "{}");
                push_str(&mut args, ", self.");
                push_str(&mut args, name.as_str());
                if *splat {
                    push_str(&mut args, ".join(\"/\")");
                }
            },
        }
        assert(fmt@ =~= fmt_text(segs.take(i + 1)));
        assert(args@ =~= format_args_text(segs.take(i + 1)));
        i = i + 1;
    }
    assert(segs.take(segments.len() as int) =~= segs);
    (fmt, args)
}

fn push_path_body(out: &mut String, parsed_segments: &Vec<PathSegment>, ps: &Vec<ResolvedParam>)
    ensures
        final(out)@ == old(out)@ + path_body_text(
            parsed_segments@.map_values(|s: PathSegment| s@),
            ps@.map_values(|p: ResolvedParam| p@),
        ),
{
    let ghost start = out@;
    let ghost segs = parsed_segments@.map_values(|s: PathSegment| s@);
    let ghost pv = ps@.map_values(|p: ResolvedParam| p@);
    if ps.len() == 1 && ps[0].splat {
        assert(pv[0] == ps@[0]@);
        let prefix = static_prefix(parsed_segments);
        let pc = chars_of(prefix.as_str());
        let slash: Vec<char> = vec!['/'];
        assert(slash@ == "/"@) by {
            reveal_strlit("/");
        }
        if pc.len() == 0 || chars_eq(&pc, &slash) {
            push_str(out, "{ let tail = self.");
            push_str(out, ps[0].name.as_str());
            push_str(out, ".join(\"/\"); if tail.is_empty() { \"/\".to_owned() } else { format!(\"/{tail}\") } }");
            assert(out@ =~= start + path_body_text(segs, pv));
        } else {
            let t = trim_end_char_exec(&pc, '/');
            let ts = string_of(&t);
            push_str(out, "{ let tail = self.");
            push_str(out, ps[0].name.as_str());
            push_str(out, ".join(\"/\"); if tail.is_empty() { ");
            push_str_lit(out, ts.as_str());
            push_str(out, ".to_owned() } else { ::std::format!(::core::concat!(");
            push_str_lit(out, ts.as_str());
            push_str(out, ", \"/{}\"), tail) } }");
            assert(out@ =~= start + path_body_text(segs, pv));
        }
    } else {
        let (fmt, args) = format_parts(parsed_segments);
        push_str(out, "::std::format!(");
        push_str_lit(out, fmt.as_str());
        push_str(out, args.as_str());
        push_str(out, ")");
        assert(out@ =~= start + path_body_text(segs, pv));
    }
}

// ---------------------------------------------------------------------------
// Marker traits
// ---------------------------------------------------------------------------

/// The `i`-th type argument the response keyword carried (a fragment's type;
/// a foreign-key picker's table and modal types), nothing where none was given.
pub open spec fn type_arg(rts: Seq<Seq<char>>, i: int) -> Seq<char> {
    if 0 <= i < rts.len() {
        rts[i]
    } else {
        seq![]
    }
}

/// The marker trait as written in the generated impl.
pub open spec fn marker_trait_text(m: RouteMarker, rts: Seq<Seq<char>>) -> Seq<char> {
    match m {
        RouteMarker::ModalGet => "ModalGet"@,
        RouteMarker::AppPaneGet => "AppPaneGet"@,
        RouteMarker::AppPanePost => "AppPanePost"@,
        RouteMarker::FragmentGet => "FragmentGet<"@ + type_arg(rts, 0) + ">"@,
        RouteMarker::FragmentPost => "FragmentPost<"@ + type_arg(rts, 0) + ">"@,
        RouteMarker::FkSelectGet => "FkSelectGet<"@ + type_arg(rts, 0) + ", "@ + type_arg(rts, 1) + ">"@,
        RouteMarker::FileDownloadGet => "FileDownloadGet"@,
        RouteMarker::FileDownloadPost => "FileDownloadPost"@,
        RouteMarker::BoostPost => "BoostPost"@,
        RouteMarker::GenerationPost => "GenerationPost"@,
    }
}

/// One `impl ::lariv_rs::http::Marker for Tag {}` line per marker, in order.
pub open spec fn markers_text(ms: Seq<RouteMarker>, tag: Seq<char>, rts: Seq<Seq<char>>) -> Seq<char>
    decreases ms.len(),
{
    if ms.len() == 0 {
        seq![]
    } else {
        markers_text(ms.drop_last(), tag, rts) + "impl ::lariv_rs::http::"@ + marker_trait_text(ms.last(), rts)
            + " for "@ + tag + " {}\n"@
    }
}

fn push_type_arg(out: &mut String, response_types: &Vec<String>, i: usize)
    ensures
        final(out)@ == old(out)@ + type_arg(names_view(response_types@), i as int),
{
    if i < response_types.len() {
        push_str(out, response_types[i].as_str());
    } else {
        assert(out@ =~= out@ + Seq::<char>::empty());
    }
}

fn push_marker_trait(out: &mut String, m: RouteMarker, response_types: &Vec<String>)
    ensures
        final(out)@ == old(out)@ + marker_trait_text(m, names_view(response_types@)),
{
    let ghost start = out@;
    match m {
        RouteMarker::ModalGet => push_str(out, "ModalGet"),
        RouteMarker::AppPaneGet => push_str(out, "AppPaneGet"),
        RouteMarker::AppPanePost => push_str(out, "AppPanePost"),
        RouteMarker::FragmentGet => {
            push_str(out, "FragmentGet<");
            push_type_arg(out, response_types, 0);
            push_str(out, ">");
        },
        RouteMarker::FragmentPost => {
            push_str(out, "FragmentPost<");
            push_type_arg(out, response_types, 0);
            push_str(out, ">");
        },
        RouteMarker::FkSelectGet => {
            push_str(out, "FkSelectGet<");
            push_type_arg(out, response_types, 0);
            push_str(out, ", ");
            push_type_arg(out, response_types, 1);
            push_str(out, ">");
        },
        RouteMarker::FileDownloadGet => push_str(out, "FileDownloadGet"),
        RouteMarker::FileDownloadPost => push_str(out, "FileDownloadPost"),
        RouteMarker::BoostPost => push_str(out, "BoostPost"),
        RouteMarker::GenerationPost => push_str(out, "GenerationPost"),
    }
    assert(out@ =~= start + marker_trait_text(m, names_view(response_types@)));
}

fn push_markers(out: &mut String, ms: &Vec<RouteMarker>, tag: &str, response_types: &Vec<String>)
    ensures
        final(out)@ == old(out)@ + markers_text(ms@, tag@, names_view(response_types@)),
{
    let ghost start = out@;
    let ghost rts = names_view(response_types@);
    let mut i: usize = 0;
    while i < ms.len()
        invariant
            i <= ms.len(),
            rts == names_view(response_types@),
            out@ == start + markers_text(ms@.take(i as int), tag@, rts),
        decreases ms.len() - i,
    {
        assert(ms@.take(i + 1).drop_last() =~= ms@.take(i as int));
        assert(ms@.take(i + 1).last() == ms@[i as int]);
        push_str(out, "impl ::lariv_rs::http::");
        push_marker_trait(out, ms[i], response_types);
        push_str(out, " for ");
        push_str(out, tag);
        push_str(out, " {}\n");
        assert(out@ =~= start + markers_text(ms@.take(i + 1), tag@, rts));
        i = i + 1;
    }
    assert(ms@.take(ms.len() as int) =~= ms@);
}

// ---------------------------------------------------------------------------
// The route tag
// ---------------------------------------------------------------------------

/// `url()` and `with_query()`, the same for every tag.
pub open spec fn shared_methods_text() -> Seq<char> {
    "    pub fn url(self) -> ::std::string::String {\n        ::lariv_rs::http::route_tag::trailing_slash(&self.path())\n    }\n    pub fn with_query(self) -> ::lariv_rs::http::RouteQueryBuilder<Self> {\n        ::lariv_rs::http::RouteQueryBuilder::new(self)\n    }\n"@
}

/// A tag without placeholders: a unit struct whose `path()` is its `PATH`.
pub open spec fn unit_tag_text(tag: Seq<char>, path: Seq<char>) -> Seq<char> {
    "#[derive(::core::clone::Clone, ::core::marker::Copy, ::core::default::Default)]\npub struct "@ + tag
        + ";\nimpl "@ + tag + " {\n    pub const PATH: &'static str = "@ + str_lit(path)
        + ";\n    pub fn path(self) -> ::std::string::String {\n        Self::PATH.to_owned()\n    }\n"@
        + shared_methods_text() + "}\n"@
}

/// The `From<String>` of a tag whose one placeholder is a splat.
pub open spec fn splat_from_text(tag: Seq<char>, ps: Seq<ParamView>) -> Seq<char> {
    if ps.len() == 1 && ps[0].2 {
        "impl ::core::convert::From<::std::string::String> for "@ + tag
            + " {\n    fn from(s: ::std::string::String) -> Self {\n        Self {\n            "@ + ps[0].0
            + ": if s.is_empty() { ::std::vec::Vec::new() } else { s.split('/').map(str::to_owned).collect() },\n        }\n    }\n}\n"@
    } else {
        seq![]
    }
}

/// A tag with placeholders: a struct with one public field per placeholder,
/// `new` taking them in order, and `path()` filling them in.
pub open spec fn param_tag_text(
    tag: Seq<char>,
    path: Seq<char>,
    segs: Seq<SegmentView>,
    ps: Seq<ParamView>,
    ots: Seq<Seq<char>>,
) -> Seq<char> {
    "#[derive(::core::clone::Clone, ::core::fmt::Debug)]\npub struct "@ + tag + " {\n"@
        + param_list_text(ps, ots, ListForm::Fields) + "}\nimpl "@ + tag
        + " {\n    pub const PATH: &'static str = "@ + str_lit(path) + ";\n    pub fn new("@
        + param_list_text(ps, ots, ListForm::NewParams) + ") -> Self {\n        Self { "@
        + param_list_text(ps, ots, ListForm::Inits)
        + "}\n    }\n    pub fn path(self) -> ::std::string::String {\n        "@ + path_body_text(segs, ps)
        + "\n    }\n"@ + shared_methods_text() + "}\n"@ + splat_from_text(tag, ps)
}

/// The `RouteTag` and `RouteUrl` impls of a tag.
pub open spec fn tag_impls_text(tag: Seq<char>, path: Seq<char>, ps: Seq<ParamView>, ots: Seq<Seq<char>>) -> Seq<char> {
    "impl ::lariv_rs::http::RouteTag for "@ + tag + " {\n    const PATH: &'static str = "@ + str_lit(path)
        + ";\n    const PARAMS: &'static [&'static str] = &["@ + param_list_text(ps, ots, ListForm::Names)
        + "];\n}\nimpl ::lariv_rs::http::RouteUrl for "@ + tag
        + " {\n    fn path(self) -> ::std::string::String {\n        <Self>::path(self)\n    }\n    fn url(self) -> ::std::string::String {\n        <Self>::url(self)\n    }\n}\n"@
}

/// Everything written for one route line: its placeholders resolved, the tag
/// struct and its impls, then one impl per marker trait of its response kind;
/// or the reason the placeholders do not resolve. `ots` are the types written
/// with the `param` overrides, `rts` the types the response keyword carried.
pub open spec fn route_tag_spec(route: RouteSpec, ots: Seq<Seq<char>>, rts: Seq<Seq<char>>) -> Result<
    Seq<char>,
    ResolveErrorView,
> {
    let segs = segments_of(route.path@);
    match resolve_spec(segs, names_view(route.param_overrides@)) {
        Err(e) => Err(e),
        Ok(ps) => Ok(
            (if ps.len() == 0 {
                unit_tag_text(route.tag@, route.path@)
            } else {
                param_tag_text(route.tag@, route.path@, segs, ps, ots)
            }) + tag_impls_text(route.tag@, route.path@, ps, ots) + markers_text(
                response_markers_spec(route.response, route.method),
                route.tag@,
                rts,
            ),
        ),
    }
}

fn push_shared_methods(out: &mut String)
    ensures
        final(out)@ == old(out)@ + shared_methods_text(),
{
    push_str(out, "    pub fn url(self) -> ::std::string::String {\n        ::lariv_rs::http::route_tag::trailing_slash(&self.path())\n    }\n    pub fn with_query(self) -> ::lariv_rs::http::RouteQueryBuilder<Self> {\n        ::lariv_rs::http::RouteQueryBuilder::new(self)\n    }\n");
}

fn unit_tag(tag: &str, path: &str) -> (r: String)
    ensures
        r@ == unit_tag_text(tag@, path@),
{
    let mut out = to_owned("#[derive(::core::clone::Clone, ::core::marker::Copy, ::core::default::Default)]\npub struct ");
    push_str(&mut out, tag);
    push_str(&mut out, ";\nimpl ");
    push_str(&mut out, tag);
    push_str(&mut out, " {\n    pub const PATH: &'static str = ");
    push_str_lit(&mut out, path);
    push_str(&mut out, ";\n    pub fn path(self) -> ::std::string::String {\n        Self::PATH.to_owned()\n    }\n");
    push_shared_methods(&mut out);
    push_str(&mut out, "}\n");
    out
}

fn param_tag(
    tag: &str,
    path: &str,
    parsed_segments: &Vec<PathSegment>,
    ps: &Vec<ResolvedParam>,
    override_types: &Vec<String>,
) -> (r: String)
    ensures
        r@ == param_tag_text(
            tag@,
            path@,
            parsed_segments@.map_values(|s: PathSegment| s@),
            ps@.map_values(|p: ResolvedParam| p@),
            names_view(override_types@),
        ),
{
    let mut out = to_owned("#[derive(::core::clone::Clone, ::core::fmt::Debug)]\npub struct ");
    push_str(&mut out, tag);
    push_str(&mut out, " {\n");
    push_param_list(&mut out, ps, override_types, ListForm::Fields);
    push_str(&mut out, "}\nimpl ");
    push_str(&mut out, tag);
    push_str(&mut out, " {\n    pub const PATH: &'static str = ");
    push_str_lit(&mut out, path);
    push_str(&mut out, ";\n    pub fn new(");
    push_param_list(&mut out, ps, override_types, ListForm::NewParams);
    push_str(&mut out, ") -> Self {\n        Self { ");
    push_param_list(&mut out, ps, override_types, ListForm::Inits);
    push_str(&mut out, "}\n    }\n    pub fn path(self) -> ::std::string::String {\n        ");
    push_path_body(&mut out, parsed_segments, ps);
    push_str(&mut out, "\n    }\n");
    push_shared_methods(&mut out);
    push_str(&mut out, "}\n");
    let ghost before = out@;
    if ps.len() == 1 && ps[0].splat {
        push_str(&mut out, "impl ::core::convert::From<::std::string::String> for ");
        push_str(&mut out, tag);
        push_str(&mut out, " {\n    fn from(s: ::std::string::String) -> Self {\n        Self {\n            ");
        push_str(&mut out, ps[0].name.as_str());
        push_str(&mut out, ": if s.is_empty() { ::std::vec::Vec::new() } else { s.split('/').map(str::to_owned).collect() },\n        }\n    }\n}\n");
        assert(out@ =~= before + splat_from_text(tag@, ps@.map_values(|p: ResolvedParam| p@)));
    } else {
        assert(out@ =~= before + splat_from_text(tag@, ps@.map_values(|p: ResolvedParam| p@)));
    }
    out
}

fn push_tag_impls(out: &mut String, tag: &str, path: &str, ps: &Vec<ResolvedParam>, override_types: &Vec<String>)
    ensures
        final(out)@ == old(out)@ + tag_impls_text(
            tag@,
            path@,
            ps@.map_values(|p: ResolvedParam| p@),
            names_view(override_types@),
        ),
{
    let ghost start = out@;
    push_str(out, "impl ::lariv_rs::http::RouteTag for ");
    push_str(out, tag);
    push_str(out, " {\n    const PATH: &'static str = ");
    push_str_lit(out, path);
    push_str(out, ";\n    const PARAMS: &'static [&'static str] = &[");
    push_param_list(out, ps, override_types, ListForm::Names);
    push_str(out, "];\n}\nimpl ::lariv_rs::http::RouteUrl for ");
    push_str(out, tag);
    push_str(out, " {\n    fn path(self) -> ::std::string::String {\n        <Self>::path(self)\n    }\n    fn url(self) -> ::std::string::String {\n        <Self>::url(self)\n    }\n}\n");
    assert(out@ =~= start + tag_impls_text(
        tag@,
        path@,
        ps@.map_values(|p: ResolvedParam| p@),
        names_view(override_types@),
    ));
}

/// The source text of the items `define_plugin_routes!` writes for `route`:
/// `override_types[j]` is the type written with its `j`-th `param` override,
/// `response_types` the types its response keyword carried. Placeholders that
/// do not resolve give the resolution's error.
pub fn route_tag_text(route: &RouteSpec, override_types: &Vec<String>, response_types: &Vec<String>) -> (r: Result<
    String,
    ResolveError,
>)
    ensures
        match r {
            Ok(t) => route_tag_spec(*route, names_view(override_types@), names_view(response_types@)) == Ok::<
                Seq<char>,
                ResolveErrorView,
            >(t@),
            Err(e) => route_tag_spec(*route, names_view(override_types@), names_view(response_types@)) == Err::<
                Seq<char>,
                ResolveErrorView,
            >(e@),
        },
{
    let parsed = parse_path(route.path.as_str());
    let ps = match resolve_params(&parsed, &route.param_overrides) {
        Ok(ps) => ps,
        Err(e) => {
            return Err(e);
        },
    };
    let mut out = if ps.len() == 0 {
        unit_tag(route.tag.as_str(), route.path.as_str())
    } else {
        param_tag(route.tag.as_str(), route.path.as_str(), &parsed.segments, &ps, override_types)
    };
    push_tag_impls(&mut out, route.tag.as_str(), route.path.as_str(), &ps, override_types);
    let ms = response_markers(route.response, route.method);
    push_markers(&mut out, &ms, route.tag.as_str(), response_types);
    Ok(out)
}

} // verus!
