//! The route declaration of a plugin: its `plugin:`, `proof:`, `slots:`,
//! `pages: [..]` and `routes: [..]` sections, read into route and page
//! specifications with every keyword checked.

use vstd::prelude::*;

use crate::paths::{
    http_method_of, route_options, route_options_spec, HttpMethod, ResponseKind, RouteLineError, RouteOption, SlotsMode,
};
use crate::text::{str_eq, to_owned};

verus! {

/// One route line as written: `get|post Tag, "/path", [bare] handler, options..;`.
pub struct RouteLineInput {
    pub method: String,
    pub tag: String,
    pub path: String,
    pub bare: bool,
    pub handler: String,
    pub options: Vec<RouteOption>,
}

/// A route line read: method and response decided, `param` overrides by name.
pub struct RouteSpec {
    pub method: HttpMethod,
    pub bare: bool,
    pub tag: String,
    pub path: String,
    pub handler: String,
    pub response: ResponseKind,
    pub param_overrides: Vec<String>,
}

/// The method word's method.
pub open spec fn method_word(w: Seq<char>) -> Option<HttpMethod> {
    if w == "get"@ {
        Some(HttpMethod::Get)
    } else if w == "post"@ {
        Some(HttpMethod::Post)
    } else {
        None
    }
}

/// What a route line decides: its method, response and overridden params, or
/// why it is refused (the method word is checked before the options).
pub open spec fn route_line_spec(l: RouteLineInput) -> Result<(HttpMethod, ResponseKind, Seq<Seq<char>>), RouteLineError> {
    match method_word(l.method@) {
        None => Err(RouteLineError::UnknownMethod),
        Some(m) => match route_options_spec(l.bare, l.options@) {
            Ok((k, ps)) => Ok((m, k, ps)),
            Err(e) => Err(e),
        },
    }
}

/// The names of a list of strings.
pub open spec fn names_view(v: Seq<String>) -> Seq<Seq<char>> {
    v.map_values(|p: String| p@)
}

/// `s` is the reading of line `l` with the decisions `d`: the decided parts
/// from `d`, the rest copied from the line.
pub open spec fn route_spec_is(s: RouteSpec, l: RouteLineInput, d: (HttpMethod, ResponseKind, Seq<Seq<char>>)) -> bool {
    &&& s.method == d.0
    &&& s.response == d.1
    &&& names_view(s.param_overrides@) == d.2
    &&& s.bare == l.bare
    &&& s.tag@ == l.tag@
    &&& s.path@ == l.path@
    &&& s.handler@ == l.handler@
}

/// Read one route line.
pub fn parse_route_line(l: &RouteLineInput) -> (r: Result<RouteSpec, RouteLineError>)
    ensures
        match r {
            Ok(s) => route_line_spec(*l) is Ok && route_spec_is(s, *l, route_line_spec(*l)->Ok_0),
            Err(e) => route_line_spec(*l) == Err::<(HttpMethod, ResponseKind, Seq<Seq<char>>), RouteLineError>(e),
        },
{
    let method = match http_method_of(l.method.as_str()) {
        Some(m) => m,
        None => {
            return Err(RouteLineError::UnknownMethod);
        },
    };
    match route_options(l.bare, &l.options) {
        Ok((response, param_overrides)) => Ok(
            RouteSpec {
                method,
                bare: l.bare,
                tag: to_owned(l.tag.as_str()),
                path: to_owned(l.path.as_str()),
                handler: to_owned(l.handler.as_str()),
                response,
                param_overrides,
            },
        ),
        Err(e) => Err(e),
    }
}

/// Read the route lines in order; the first refused line refuses them all.
pub fn parse_routes(lines: &Vec<RouteLineInput>) -> (r: Result<Vec<RouteSpec>, RouteLineError>)
    ensures
        match r {
            Ok(v) => v@.len() == lines@.len() && forall|i: int|
                0 <= i < lines@.len() ==> #[trigger] route_line_spec(lines@[i]) is Ok && route_spec_is(
                    v@[i],
                    lines@[i],
                    route_line_spec(lines@[i])->Ok_0,
                ),
            Err(e) => exists|i: int|
                0 <= i < lines@.len() && (forall|j: int| 0 <= j < i ==> #[trigger] route_line_spec(lines@[j]) is Ok)
                    && route_line_spec(lines@[i]) == Err::<(HttpMethod, ResponseKind, Seq<Seq<char>>), RouteLineError>(e),
        },
{
    let mut out: Vec<RouteSpec> = Vec::new();
    let mut i: usize = 0;
    while i < lines.len()
        invariant
            i <= lines@.len(),
            out@.len() == i,
            forall|j: int|
                0 <= j < i ==> #[trigger] route_line_spec(lines@[j]) is Ok && route_spec_is(
                    out@[j],
                    lines@[j],
                    route_line_spec(lines@[j])->Ok_0,
                ),
        decreases lines@.len() - i,
    {
        match parse_route_line(&lines[i]) {
            Ok(s) => {
                out.push(s);
            },
            Err(e) => {
                assert(forall|j: int| 0 <= j < i ==> #[trigger] route_line_spec(lines@[j]) is Ok);
                return Err(e);
            },
        }
        i = i + 1;
    }
    Ok(out)
}

/// One page line as written: `pane|page Idx, P => PageTag, PageType;`.
pub struct PageLine {
    pub kind: String,
    pub idx: String,
    pub p: String,
    pub page_tag: String,
    pub page_ty: String,
}

/// A page line read: `pane` or `page`, the rest as written.
pub struct PageSpec {
    pub pane: bool,
    pub idx: String,
    pub p: String,
    pub page_tag: String,
    pub page_ty: String,
}

/// The kind word of a page line: `pane` (true) or `page` (false).
pub open spec fn page_word(w: Seq<char>) -> Option<bool> {
    if w == "pane"@ {
        Some(true)
    } else if w == "page"@ {
        Some(false)
    } else {
        None
    }
}

/// `s` is the reading of page line `l`.
pub open spec fn page_spec_is(s: PageSpec, l: PageLine) -> bool {
    &&& page_word(l.kind@) == Some(s.pane)
    &&& s.idx@ == l.idx@
    &&& s.p@ == l.p@
    &&& s.page_tag@ == l.page_tag@
    &&& s.page_ty@ == l.page_ty@
}

/// Why a route declaration is refused.
#[derive(Debug, Clone, Copy, PartialEq, Eq, Structural)]
pub enum PluginRoutesError {
    /// A section key other than `plugin`, `proof`, `slots`, `pages`, `routes`.
    UnknownKey,
    /// A `slots:` mode other than `clone`.
    SlotsNotClone,
    /// A page line whose kind is neither `pane` nor `page`.
    PageKind,
    /// A refused route line.
    Route(RouteLineError),
    /// No `plugin:` section.
    MissingPlugin,
    /// No route lines.
    MissingRoutes,
}

impl PluginRoutesError {
    /// The diagnostic the route macro reports.
    pub fn message(&self) -> (r: &'static str)
        ensures
            *self == PluginRoutesError::UnknownKey ==> r@ == "unknown key"@,
            *self == PluginRoutesError::SlotsNotClone ==> r@ == "slots must be `clone` when specified"@,
            *self == PluginRoutesError::PageKind ==> r@ == "expected `pane` or `page`"@,
            *self == PluginRoutesError::MissingPlugin ==> r@ == "missing `plugin:`"@,
            *self == PluginRoutesError::MissingRoutes ==> r@ == "missing `routes:`"@,
            forall|e: RouteLineError| *self == PluginRoutesError::Route(e) ==> r@ == e.message_text(),
    {
        match self {
            PluginRoutesError::UnknownKey => "unknown key",
            PluginRoutesError::SlotsNotClone => "slots must be `clone` when specified",
            PluginRoutesError::PageKind => "expected `pane` or `page`",
            PluginRoutesError::Route(e) => e.message(),
            PluginRoutesError::MissingPlugin => "missing `plugin:`",
            PluginRoutesError::MissingRoutes => "missing `routes:`",
        }
    }
}

/// Read the page lines; any line with an unknown kind refuses them all.
pub fn parse_pages(lines: &Vec<PageLine>) -> (r: Result<Vec<PageSpec>, PluginRoutesError>)
    ensures
        match r {
            Ok(v) => v@.len() == lines@.len() && forall|i: int|
                0 <= i < lines@.len() ==> #[trigger] page_spec_is(v@[i], lines@[i]),
            Err(e) => e == PluginRoutesError::PageKind && exists|i: int|
                0 <= i < lines@.len() && #[trigger] page_word(lines@[i].kind@) is None,
        },
{
    let mut out: Vec<PageSpec> = Vec::new();
    let mut i: usize = 0;
    while i < lines.len()
        invariant
            i <= lines@.len(),
            out@.len() == i,
            forall|j: int| 0 <= j < i ==> #[trigger] page_spec_is(out@[j], lines@[j]),
        decreases lines@.len() - i,
    {
        let l = &lines[i];
        let pane = if str_eq(l.kind.as_str(), "pane") {
            true
        } else if str_eq(l.kind.as_str(), "page") {
            false
        } else {
            assert(page_word(lines@[i as int].kind@) is None);
            return Err(PluginRoutesError::PageKind);
        };
        out.push(
            PageSpec {
                pane,
                idx: to_owned(l.idx.as_str()),
                p: to_owned(l.p.as_str()),
                page_tag: to_owned(l.page_tag.as_str()),
                page_ty: to_owned(l.page_ty.as_str()),
            },
        );
        i = i + 1;
    }
    Ok(out)
}

/// The first refusal among route lines, in order (none when all are read).
pub open spec fn routes_first_error(ls: Seq<RouteLineInput>) -> Option<RouteLineError>
    decreases ls.len(),
{
    if ls.len() == 0 {
        None
    } else {
        match routes_first_error(ls.drop_last()) {
            Some(e) => Some(e),
            None => match route_line_spec(ls.last()) {
                Err(e) => Some(e),
                Ok(_) => None,
            },
        }
    }
}

/// Lines that are all read leave no refusal.
proof fn lemma_no_first_error(ls: Seq<RouteLineInput>, i: int)
    requires
        0 <= i <= ls.len(),
        forall|j: int| 0 <= j < i ==> #[trigger] route_line_spec(ls[j]) is Ok,
    ensures
        routes_first_error(ls.take(i)) is None,
    decreases i,
{
    if i > 0 {
        assert(ls.take(i).drop_last() == ls.take(i - 1));
        assert(ls.take(i).last() == ls[i - 1]);
        lemma_no_first_error(ls, i - 1);
    }
}

/// A refusal among the first lines is the refusal of all of them.
proof fn lemma_first_error_stays(ls: Seq<RouteLineInput>, n: int)
    requires
        0 <= n <= ls.len(),
        routes_first_error(ls.take(n)) is Some,
    ensures
        routes_first_error(ls) == routes_first_error(ls.take(n)),
    decreases ls.len() - n,
{
    if n < ls.len() {
        assert(ls.take(n + 1).drop_last() == ls.take(n));
        lemma_first_error_stays(ls, n + 1);
    } else {
        assert(ls.take(n) == ls);
    }
}

/// The first refused line's refusal is the refusal of all the lines.
proof fn lemma_first_error_at(ls: Seq<RouteLineInput>, i: int, e: RouteLineError)
    requires
        0 <= i < ls.len(),
        forall|j: int| 0 <= j < i ==> #[trigger] route_line_spec(ls[j]) is Ok,
        route_line_spec(ls[i]) == Err::<(HttpMethod, ResponseKind, Seq<Seq<char>>), RouteLineError>(e),
    ensures
        routes_first_error(ls) == Some(e),
{
    lemma_no_first_error(ls, i);
    assert(ls.take(i + 1).drop_last() == ls.take(i));
    assert(ls.take(i + 1).last() == ls[i]);
    lemma_first_error_stays(ls, i + 1);
}

/// One `key: value` section of a route declaration.
pub enum PluginSection {
    /// `plugin: Type`.
    Plugin(String),
    /// `proof: Ident`.
    Proof(String),
    /// `slots: mode`.
    Slots(String),
    /// `pages: [..]`.
    Pages(Vec<PageLine>),
    /// `routes: [..]`.
    Routes(Vec<RouteLineInput>),
    /// Any other key.
    Other(String),
}

/// A route declaration read.
pub struct PluginRoutesInput {
    pub plugin: String,
    pub proof: Option<String>,
    pub slots: SlotsMode,
    pub pages: Vec<PageSpec>,
    pub routes: Vec<RouteSpec>,
}

/// Why one section is refused, if it is.
pub open spec fn section_error(s: PluginSection) -> Option<PluginRoutesError> {
    match s {
        PluginSection::Slots(w) => if w@ == "clone"@ {
            None
        } else {
            Some(PluginRoutesError::SlotsNotClone)
        },
        PluginSection::Pages(ls) => if exists|i: int| 0 <= i < ls@.len() && #[trigger] page_word(ls@[i].kind@) is None {
            Some(PluginRoutesError::PageKind)
        } else {
            None
        },
        PluginSection::Routes(ls) => match routes_first_error(ls@) {
            Some(e) => Some(PluginRoutesError::Route(e)),
            None => None,
        },
        PluginSection::Other(_) => Some(PluginRoutesError::UnknownKey),
        _ => None,
    }
}

/// What the sections read so far set: the plugin type, the proof, the slots
/// mode, and the lines of the last `pages:` and `routes:` sections.
pub type SectionsState = (Option<Seq<char>>, Option<Seq<char>>, SlotsMode, Option<Seq<PageLine>>, Option<Seq<RouteLineInput>>);

/// The state after an accepted section: a later section replaces an earlier one.
pub open spec fn apply_section(st: SectionsState, s: PluginSection) -> SectionsState {
    match s {
        PluginSection::Plugin(t) => (Some(t@), st.1, st.2, st.3, st.4),
        PluginSection::Proof(t) => (st.0, Some(t@), st.2, st.3, st.4),
        PluginSection::Slots(_) => (st.0, st.1, SlotsMode::Clone, st.3, st.4),
        PluginSection::Pages(ls) => (st.0, st.1, st.2, Some(ls@), st.4),
        PluginSection::Routes(ls) => (st.0, st.1, st.2, st.3, Some(ls@)),
        PluginSection::Other(_) => st,
    }
}

/// The sections read in order, or the first refusal.
pub open spec fn sections_fold(ss: Seq<PluginSection>) -> Result<SectionsState, PluginRoutesError>
    decreases ss.len(),
{
    if ss.len() == 0 {
        Ok((None, None, SlotsMode::Fold, None, None))
    } else {
        match sections_fold(ss.drop_last()) {
            Err(e) => Err(e),
            Ok(st) => match section_error(ss.last()) {
                Some(e) => Err(e),
                None => Ok(apply_section(st, ss.last())),
            },
        }
    }
}

/// Lines of an optional section, none when it is absent.
pub open spec fn lines_of<T>(o: Option<Seq<T>>) -> Seq<T> {
    match o {
        Some(ls) => ls,
        None => Seq::empty(),
    }
}

/// What a route declaration yields: plugin type, proof, slots mode, page
/// lines and route lines, or why it is refused. A plugin type and at least
/// one route line are required, in that order of checking.
pub open spec fn plugin_routes_spec(ss: Seq<PluginSection>) -> Result<
    (Seq<char>, Option<Seq<char>>, SlotsMode, Seq<PageLine>, Seq<RouteLineInput>),
    PluginRoutesError,
> {
    match sections_fold(ss) {
        Err(e) => Err(e),
        Ok(st) => match st.0 {
            None => Err(PluginRoutesError::MissingPlugin),
            Some(p) => if lines_of(st.4).len() == 0 {
                Err(PluginRoutesError::MissingRoutes)
            } else {
                Ok((p, st.1, st.2, lines_of(st.3), lines_of(st.4)))
            },
        },
    }
}

/// The view of an optional string.
pub open spec fn opt_string(o: Option<String>) -> Option<Seq<char>> {
    match o {
        Some(s) => Some(s@),
        None => None,
    }
}

/// `v` is the reading of the page lines `ls`.
pub open spec fn pages_read(v: Seq<PageSpec>, ls: Seq<PageLine>) -> bool {
    v.len() == ls.len() && forall|i: int| 0 <= i < ls.len() ==> #[trigger] page_spec_is(v[i], ls[i])
}

/// `v` is the reading of the route lines `ls`.
pub open spec fn routes_read(v: Seq<RouteSpec>, ls: Seq<RouteLineInput>) -> bool {
    v.len() == ls.len() && forall|i: int|
        0 <= i < ls.len() ==> #[trigger] route_line_spec(ls[i]) is Ok && route_spec_is(
            v[i],
            ls[i],
            route_line_spec(ls[i])->Ok_0,
        )
}

/// A refusal among the first sections is the refusal of all of them.
proof fn lemma_sections_error_stays(ss: Seq<PluginSection>, n: int)
    requires
        0 <= n <= ss.len(),
        sections_fold(ss.take(n)) is Err,
    ensures
        sections_fold(ss) == sections_fold(ss.take(n)),
    decreases ss.len() - n,
{
    if n < ss.len() {
        assert(ss.take(n + 1).drop_last() == ss.take(n));
        lemma_sections_error_stays(ss, n + 1);
    } else {
        assert(ss.take(n) == ss);
    }
}

/// Read a route declaration's sections.
pub fn parse_plugin_routes(sections: &Vec<PluginSection>) -> (r: Result<PluginRoutesInput, PluginRoutesError>)
    ensures
        match r {
            Ok(out) => plugin_routes_spec(sections@) is Ok && {
                let d = plugin_routes_spec(sections@)->Ok_0;
                &&& out.plugin@ == d.0
                &&& opt_string(out.proof) == d.1
                &&& out.slots == d.2
                &&& pages_read(out.pages@, d.3)
                &&& routes_read(out.routes@, d.4)
            },
            Err(e) => plugin_routes_spec(sections@) == Err::<
                (Seq<char>, Option<Seq<char>>, SlotsMode, Seq<PageLine>, Seq<RouteLineInput>),
                PluginRoutesError,
            >(e),
        },
{
    let mut plugin: Option<String> = None;
    let mut proof_name: Option<String> = None;
    let mut slots = SlotsMode::Fold;
    let mut pages: Vec<PageSpec> = Vec::new();
    let mut routes: Vec<RouteSpec> = Vec::new();
    let mut i: usize = 0;
    assert(sections@.take(0) =~= Seq::<PluginSection>::empty());
    while i < sections.len()
        invariant
            i <= sections@.len(),
            sections_fold(sections@.take(i as int)) is Ok,
            ({
                let st = sections_fold(sections@.take(i as int))->Ok_0;
                &&& opt_string(plugin) == st.0
                &&& opt_string(proof_name) == st.1
                &&& slots == st.2
                &&& pages_read(pages@, lines_of(st.3))
                &&& routes_read(routes@, lines_of(st.4))
            }),
        decreases sections@.len() - i,
    {
        proof {
            assert(sections@.take(i + 1).drop_last() == sections@.take(i as int));
            assert(sections@.take(i + 1).last() == sections@[i as int]);
        }
        match &sections[i] {
            PluginSection::Plugin(t) => {
                plugin = Some(to_owned(t.as_str()));
            },
            PluginSection::Proof(t) => {
                proof_name = Some(to_owned(t.as_str()));
            },
            PluginSection::Slots(w) => {
                if str_eq(w.as_str(), "clone") {
                    slots = SlotsMode::Clone;
                } else {
                    proof {
                        lemma_sections_error_stays(sections@, i + 1);
                    }
                    return Err(PluginRoutesError::SlotsNotClone);
                }
            },
            PluginSection::Pages(ls) => {
                match parse_pages(ls) {
                    Ok(v) => {
                        proof {
                            assert forall|k: int| 0 <= k < ls@.len() implies #[trigger] page_word(ls@[k].kind@) is Some by {
                                assert(page_spec_is(v@[k], ls@[k]));
                            }
                        }
                        pages = v;
                    },
                    Err(e) => {
                        proof {
                            lemma_sections_error_stays(sections@, i + 1);
                        }
                        return Err(e);
                    },
                }
            },
            PluginSection::Routes(ls) => {
                match parse_routes(ls) {
                    Ok(v) => {
                        proof {
                            lemma_no_first_error(ls@, ls@.len() as int);
                            assert(ls@.take(ls@.len() as int) == ls@);
                        }
                        routes = v;
                    },
                    Err(e) => {
                        proof {
                            let k = choose|k: int|
                                0 <= k < ls@.len() && (forall|j: int| 0 <= j < k ==> #[trigger] route_line_spec(ls@[j]) is Ok)
                                    && route_line_spec(ls@[k]) == Err::<(HttpMethod, ResponseKind, Seq<Seq<char>>), RouteLineError>(e);
                            lemma_first_error_at(ls@, k, e);
                            lemma_sections_error_stays(sections@, i + 1);
                        }
                        return Err(PluginRoutesError::Route(e));
                    },
                }
            },
            PluginSection::Other(_) => {
                proof {
                    lemma_sections_error_stays(sections@, i + 1);
                }
                return Err(PluginRoutesError::UnknownKey);
            },
        }
        i = i + 1;
    }
    assert(sections@.take(sections@.len() as int) == sections@);
    match plugin {
        None => Err(PluginRoutesError::MissingPlugin),
        Some(p) => {
            if routes.len() == 0 {
                Err(PluginRoutesError::MissingRoutes)
            } else {
                Ok(PluginRoutesInput { plugin: p, proof: proof_name, slots, pages, routes })
            }
        },
    }
}

} // verus!
