//! Route path templates: `"/users/u/{id}/edit"` split into literal text and
//! `{param}` / `{*splat}` placeholders, and the typing of those placeholders.

use vstd::prelude::*;

use crate::text::{
    chars_eq, chars_of, ends_with, find_char, find_from, has_suffix, join, join_strings, lemma_find_char,
    push_str, split_all, split_all_exec, str_eq, string_of, string_of_range, sub_vec, trim_end_char,
    trim_end_char_exec,
};

verus! {

/// One piece of a path template, as a value.
pub enum SegmentView {
    Lit(Seq<char>),
    Param(Seq<char>, bool),
}

/// One piece of a path template.
#[derive(Debug, Clone, PartialEq, Eq)]
pub enum PathSegment {
    /// Literal text between placeholders.
    Static(String),
    /// `{name}`, or `{*name}` when `splat`.
    Param { name: String, splat: bool },
}

impl View for PathSegment {
    type V = SegmentView;

    open spec fn view(&self) -> SegmentView {
        match self {
            PathSegment::Static(s) => SegmentView::Lit(s@),
            PathSegment::Param { name, splat } => SegmentView::Param(name@, *splat),
        }
    }
}

/// A path template split into its segments, with the text it came from.
#[derive(Debug, Clone, PartialEq, Eq)]
pub struct ParsedPath {
    pub segments: Vec<PathSegment>,
    pub raw: String,
}

/// The placeholder named by the text between `{` and `}`.
pub open spec fn placeholder(inner: Seq<char>) -> SegmentView {
    if inner.len() > 0 && inner[0] == '*' {
        SegmentView::Param(inner.drop_first(), true)
    } else {
        SegmentView::Param(inner, false)
    }
}

/// The segments of `rest`: literal text up to each `{`, then the placeholder up
/// to the next `}`. A `{` without a closing `}` ends the scan, and everything
/// from that `{` on is kept as literal text.
pub open spec fn segments_of(rest: Seq<char>) -> Seq<SegmentView>
    decreases rest.len(),
{
    let open = find_char(rest, '{');
    if open < 0 {
        if rest.len() > 0 { seq![SegmentView::Lit(rest)] } else { seq![] }
    } else {
        proof {
            lemma_find_char(rest, '{');
        }
        let before: Seq<SegmentView> = if open > 0 {
            seq![SegmentView::Lit(rest.subrange(0, open))]
        } else {
            seq![]
        };
        let after = rest.subrange(open + 1, rest.len() as int);
        let close = find_char(after, '}');
        if close < 0 {
            before + seq![SegmentView::Lit(rest)]
        } else {
            proof {
                lemma_find_char(after, '}');
            }
            before + seq![placeholder(after.subrange(0, close))] + segments_of(
                after.subrange(close + 1, after.len() as int),
            )
        }
    }
}

/// The placeholder segment for the characters `inner`.
fn make_param(inner: &Vec<char>) -> (r: PathSegment)
    ensures
        r@ == placeholder(inner@),
{
    if inner.len() > 0 && inner[0] == '*' {
        let name = string_of_range(inner, 1, inner.len());
        assert(inner@.subrange(1, inner@.len() as int) == inner@.drop_first());
        PathSegment::Param { name, splat: true }
    } else {
        PathSegment::Param { name: string_of(inner), splat: false }
    }
}

/// Split an Axum-style path into static text and `{param}` / `{*param}` segments.
pub fn parse_path(path: &str) -> (r: ParsedPath)
    ensures
        r.segments@.map_values(|s: PathSegment| s@) == segments_of(path@),
        r.raw@ == path@,
{
    let v = crate::text::chars_of(path);
    let mut segments: Vec<PathSegment> = Vec::new();
    let mut pos: usize = 0;
    let mut done = false;
    assert(v@.subrange(0, v@.len() as int) == v@);
    while !done && pos < v.len()
        invariant
            pos <= v.len(),
            v@ == path@,
            done ==> segments@.map_values(|s: PathSegment| s@) == segments_of(path@),
            !done ==> segments@.map_values(|s: PathSegment| s@) + segments_of(
                v@.subrange(pos as int, v@.len() as int),
            ) == segments_of(path@),
        decreases v.len() - pos, (if done { 0int } else { 1int }),
    {
        let ghost rest = v@.subrange(pos as int, v@.len() as int);
        let ghost old_out = segments@.map_values(|s: PathSegment| s@);
        proof {
            lemma_find_char(rest, '{');
        }
        match find_from(&v, pos, '{') {
            None => {
                let lit = string_of_range(&v, pos, v.len());
                segments.push(PathSegment::Static(lit));
                proof {
                    assert(segments@.map_values(|s: PathSegment| s@) == old_out.push(SegmentView::Lit(rest)));
                }
                done = true;
            },
            Some(open) => {
                let ghost o = open - pos;
                let ghost after = rest.subrange(o + 1, rest.len() as int);
                assert(after == v@.subrange(open + 1, v@.len() as int));
                if open > pos {
                    let lit = string_of_range(&v, pos, open);
                    segments.push(PathSegment::Static(lit));
                    assert(rest.subrange(0, o) == v@.subrange(pos as int, open as int));
                }
                let ghost mid = segments@.map_values(|s: PathSegment| s@);
                proof {
                    lemma_find_char(after, '}');
                    if open > pos {
                        assert(mid == old_out + seq![SegmentView::Lit(rest.subrange(0, o))]);
                    } else {
                        assert(mid == old_out);
                    }
                }
                match find_from(&v, open + 1, '}') {
                    None => {
                        let lit = string_of_range(&v, pos, v.len());
                        segments.push(PathSegment::Static(lit));
                        proof {
                            assert(segments@.map_values(|s: PathSegment| s@) == mid.push(SegmentView::Lit(rest)));
                            if open > pos {
                                assert(old_out + segments_of(rest) == old_out + (seq![SegmentView::Lit(rest.subrange(0, o))] + seq![SegmentView::Lit(rest)]));
                            } else {
                                assert(old_out + segments_of(rest) == old_out + (Seq::<SegmentView>::empty() + seq![SegmentView::Lit(rest)]));
                            }
                        }
                        done = true;
                    },
                    Some(close) => {
                        let inner = sub_vec(&v, open + 1, close);
                        let seg = make_param(&inner);
                        segments.push(seg);
                        let ghost c = close - (open + 1);
                        proof {
                            assert(inner@ == after.subrange(0, c));
                            assert(after.subrange(c + 1, after.len() as int) == v@.subrange(close + 1, v@.len() as int));
                            assert(segments@.map_values(|s: PathSegment| s@) == mid.push(placeholder(inner@)));
                            let tail = segments_of(v@.subrange(close + 1, v@.len() as int));
                            if open > pos {
                                assert(segments_of(rest) == seq![SegmentView::Lit(rest.subrange(0, o))] + seq![placeholder(inner@)] + tail);
                                assert(old_out + segments_of(rest) == mid.push(placeholder(inner@)) + tail);
                            } else {
                                assert(segments_of(rest) == Seq::<SegmentView>::empty() + seq![placeholder(inner@)] + tail);
                                assert(old_out + segments_of(rest) == mid.push(placeholder(inner@)) + tail);
                            }
                        }
                        pos = close + 1;
                    },
                }
            },
        }
    }
    proof {
        if !done {
            assert(v@.subrange(pos as int, v@.len() as int) =~= Seq::<char>::empty());
            assert(segments@.map_values(|s: PathSegment| s@) + Seq::<SegmentView>::empty() == segments@.map_values(|s: PathSegment| s@));
        }
    }
    ParsedPath { segments, raw: crate::text::to_owned(path) }
}

// ---------------------------------------------------------------------------
// Placeholder types
// ---------------------------------------------------------------------------

/// The Rust type a placeholder gets when the route does not override it.
#[derive(Debug, Clone, Copy, PartialEq, Eq, Structural)]
pub enum ParamType {
    /// `Vec<String>`: the pieces of a `{*splat}`.
    Strings,
    /// `i64`: `{id}` and `{…_id}`.
    Int,
    /// `String`: any other placeholder.
    Text,
}

/// `{*name}` → `Vec<String>`, `{id}` / `{…_id}` → `i64`, anything else → `String`.
pub open spec fn default_param_type_spec(name: Seq<char>, splat: bool) -> ParamType {
    if splat {
        ParamType::Strings
    } else if name == seq!['i', 'd'] || ends_with(name, seq!['_', 'i', 'd']) {
        ParamType::Int
    } else {
        ParamType::Text
    }
}

/// The conventional type of a placeholder.
pub fn default_param_type(name: &str, splat: bool) -> (r: ParamType)
    ensures
        r == default_param_type_spec(name@, splat),
{
    if splat {
        return ParamType::Strings;
    }
    let n = chars_of(name);
    let id: Vec<char> = vec!['i', 'd'];
    let suffix: Vec<char> = vec!['_', 'i', 'd'];
    assert(id@ == seq!['i', 'd']);
    assert(suffix@ == seq!['_', 'i', 'd']);
    if chars_eq(&n, &id) || has_suffix(&n, &suffix) {
        ParamType::Int
    } else {
        ParamType::Text
    }
}

/// Where a resolved placeholder's type comes from.
#[derive(Debug, Clone, Copy, PartialEq, Eq, Structural)]
pub enum ResolvedType {
    /// The convention of `default_param_type`.
    Default(ParamType),
    /// The route's `param name: Type` override at this index.
    Override(usize),
}

/// A placeholder with its type settled.
#[derive(Debug, Clone, PartialEq, Eq)]
pub struct ResolvedParam {
    pub name: String,
    pub ty: ResolvedType,
    pub splat: bool,
}

impl View for ResolvedParam {
    type V = (Seq<char>, ResolvedType, bool);

    open spec fn view(&self) -> (Seq<char>, ResolvedType, bool) {
        (self.name@, self.ty, self.splat)
    }
}

/// Why a route's placeholders cannot be resolved.
#[derive(Debug, Clone, PartialEq, Eq)]
pub enum ResolveError {
    /// The same placeholder name occurs twice in the path.
    DuplicateParam(String),
    /// An override names no placeholder of the path.
    NotInPath(String),
}

/// `ResolveError` as a value.
pub enum ResolveErrorView {
    DuplicateParam(Seq<char>),
    NotInPath(Seq<char>),
}

impl View for ResolveError {
    type V = ResolveErrorView;

    open spec fn view(&self) -> ResolveErrorView {
        match self {
            ResolveError::DuplicateParam(n) => ResolveErrorView::DuplicateParam(n@),
            ResolveError::NotInPath(n) => ResolveErrorView::NotInPath(n@),
        }
    }
}

impl ResolveError {
    /// The diagnostic text for the error.
    pub fn message(&self) -> (r: String)
        ensures
            r@ == match self@ {
                ResolveErrorView::DuplicateParam(n) => "duplicate path param `"@ + n + "`"@,
                ResolveErrorView::NotInPath(n) => "param `"@ + n + "` is not in route path"@,
            },
    {
        let mut out = String::new();
        match self {
            ResolveError::DuplicateParam(n) => {
                crate::text::push_str(&mut out, "duplicate path param `");
                crate::text::push_str(&mut out, n.as_str());
                crate::text::push_str(&mut out, "`");
            },
            ResolveError::NotInPath(n) => {
                crate::text::push_str(&mut out, "param `");
                crate::text::push_str(&mut out, n.as_str());
                crate::text::push_str(&mut out, "` is not in route path");
            },
        }
        out
    }
}

/// The placeholder segments of `segs`, in order.
pub open spec fn params_of(segs: Seq<SegmentView>) -> Seq<SegmentView>
    decreases segs.len(),
{
    if segs.len() == 0 {
        seq![]
    } else {
        let head: Seq<SegmentView> = match segs[0] {
            SegmentView::Lit(_) => seq![],
            SegmentView::Param(_, _) => seq![segs[0]],
        };
        head + params_of(segs.drop_first())
    }
}

/// The name of a placeholder segment.
pub open spec fn param_name(p: SegmentView) -> Seq<char> {
    match p {
        SegmentView::Lit(t) => t,
        SegmentView::Param(n, _) => n,
    }
}

/// Whether a placeholder segment is a splat.
pub open spec fn param_splat(p: SegmentView) -> bool {
    match p {
        SegmentView::Lit(_) => false,
        SegmentView::Param(_, s) => s,
    }
}

/// Index of the first `x` in `s`, or `-1`.
pub open spec fn index_in<A>(s: Seq<A>, x: A) -> int
    decreases s.len(),
{
    if s.len() == 0 {
        -1
    } else if s[0] == x {
        0
    } else {
        let r = index_in(s.drop_first(), x);
        if r < 0 { -1 } else { r + 1 }
    }
}

/// First index `j >= from` whose name already occurred before `j`, or `-1`.
pub open spec fn first_repeat_from(names: Seq<Seq<char>>, from: int) -> int
    decreases names.len() - from,
{
    if from < 0 || from >= names.len() {
        -1
    } else if names.take(from).contains(names[from]) {
        from
    } else {
        first_repeat_from(names, from + 1)
    }
}

/// First index `k >= from` of an override that names no placeholder, or `-1`.
pub open spec fn first_missing_from(overrides: Seq<Seq<char>>, names: Seq<Seq<char>>, from: int) -> int
    decreases overrides.len() - from,
{
    if from < 0 || from >= overrides.len() {
        -1
    } else if !names.contains(overrides[from]) {
        from
    } else {
        first_missing_from(overrides, names, from + 1)
    }
}

/// A placeholder with its type: the first override of that name, else the convention.
pub open spec fn resolved_entry(p: SegmentView, overrides: Seq<Seq<char>>) -> (Seq<char>, ResolvedType, bool) {
    let j = index_in(overrides, param_name(p));
    (
        param_name(p),
        if j >= 0 {
            ResolvedType::Override(j as usize)
        } else {
            ResolvedType::Default(default_param_type_spec(param_name(p), param_splat(p)))
        },
        param_splat(p),
    )
}

/// What resolving the placeholders of `segs` against `overrides` yields.
pub open spec fn resolve_spec(segs: Seq<SegmentView>, overrides: Seq<Seq<char>>) -> Result<
    Seq<(Seq<char>, ResolvedType, bool)>,
    ResolveErrorView,
> {
    let ps = params_of(segs);
    let names = ps.map_values(|p: SegmentView| param_name(p));
    let d = first_repeat_from(names, 0);
    let m = first_missing_from(overrides, names, 0);
    if d >= 0 {
        Err(ResolveErrorView::DuplicateParam(names[d]))
    } else if m >= 0 {
        Err(ResolveErrorView::NotInPath(overrides[m]))
    } else {
        Ok(ps.map_values(|p: SegmentView| resolved_entry(p, overrides)))
    }
}

/// `index_in` finds the first occurrence.
pub proof fn lemma_index_in<A>(s: Seq<A>, x: A)
    ensures
        -1 <= index_in(s, x) < s.len(),
        index_in(s, x) >= 0 ==> s[index_in(s, x)] == x,
        forall|j: int| 0 <= j < index_in(s, x) ==> s[j] != x,
        index_in(s, x) < 0 <==> !s.contains(x),
    decreases s.len(),
{
    if s.len() > 0 && s[0] != x {
        lemma_index_in(s.drop_first(), x);
        assert forall|j: int| 0 < j < s.len() implies s[j] == s.drop_first()[j - 1] by {}
        if s.contains(x) {
            let k = choose|k: int| 0 <= k < s.len() && s[k] == x;
            assert(s.drop_first()[k - 1] == x);
        }
    }
    if s.len() > 0 && s[0] == x {
        assert(s.contains(x));
    }
}

/// Index of the first name equal to `n`, if any.
fn index_of_name(names: &Vec<Vec<char>>, n: &Vec<char>) -> (r: Option<usize>)
    ensures
        match r {
            Some(i) => i as int == index_in(names@.map_values(|v: Vec<char>| v@), n@),
            None => index_in(names@.map_values(|v: Vec<char>| v@), n@) == -1,
        },
{
    let ghost ns = names@.map_values(|v: Vec<char>| v@);
    proof {
        lemma_index_in(ns, n@);
    }
    let mut i: usize = 0;
    while i < names.len()
        invariant
            i <= names.len(),
            ns == names@.map_values(|v: Vec<char>| v@),
            forall|j: int| 0 <= j < i ==> ns[j] != n@,
            -1 <= index_in(ns, n@) < ns.len(),
            index_in(ns, n@) >= 0 ==> ns[index_in(ns, n@)] == n@,
            forall|j: int| 0 <= j < index_in(ns, n@) ==> ns[j] != n@,
            index_in(ns, n@) < 0 <==> !ns.contains(n@),
        decreases names.len() - i,
    {
        if chars_eq(&names[i], n) {
            assert(ns[i as int] == n@);
            assert(ns.contains(n@));
            return Some(i);
        }
        i = i + 1;
    }
    assert(!ns.contains(n@));
    None
}

/// Settle the type of every placeholder of `parsed`: an override (given by
/// name, in order) wins over the convention. A placeholder name that occurs
/// twice, or an override that names no placeholder, is an error.
pub fn resolve_params(parsed: &ParsedPath, overrides: &Vec<String>) -> (r: Result<Vec<ResolvedParam>, ResolveError>)
    ensures
        match r {
            Ok(v) => resolve_spec(parsed.segments@.map_values(|s: PathSegment| s@), overrides@.map_values(|o: String| o@))
                == Ok::<Seq<(Seq<char>, ResolvedType, bool)>, ResolveErrorView>(v@.map_values(|p: ResolvedParam| p@)),
            Err(e) => resolve_spec(parsed.segments@.map_values(|s: PathSegment| s@), overrides@.map_values(|o: String| o@))
                == Err::<Seq<(Seq<char>, ResolvedType, bool)>, ResolveErrorView>(e@),
        },
{
    let ghost segs = parsed.segments@.map_values(|s: PathSegment| s@);
    let ghost ov = overrides@.map_values(|o: String| o@);
    let ghost ps = params_of(segs);
    let ghost all = ps.map_values(|p: SegmentView| param_name(p));
    let mut ovs: Vec<Vec<char>> = Vec::new();
    let mut k: usize = 0;
    while k < overrides.len()
        invariant
            k <= overrides.len(),
            ov == overrides@.map_values(|o: String| o@),
            ovs@.map_values(|v: Vec<char>| v@) == ov.take(k as int),
        decreases overrides.len() - k,
    {
        let c = chars_of(overrides[k].as_str());
        let ghost before = ovs@.map_values(|v: Vec<char>| v@);
        ovs.push(c);
        assert(ovs@.map_values(|v: Vec<char>| v@) == before.push(c@));
        assert(ov.take(k + 1) == ov.take(k as int).push(ov[k as int]));
        k = k + 1;
    }
    assert(ov.take(ov.len() as int) == ov);
    let mut names: Vec<Vec<char>> = Vec::new();
    let mut params: Vec<ResolvedParam> = Vec::new();
    let mut i: usize = 0;
    assert(segs.subrange(0, segs.len() as int) == segs);
    while i < parsed.segments.len()
        invariant
            i <= parsed.segments.len(),
            segs == parsed.segments@.map_values(|s: PathSegment| s@),
            ov == overrides@.map_values(|o: String| o@),
            ovs@.map_values(|v: Vec<char>| v@) == ov,
            ps == params_of(segs),
            all == ps.map_values(|p: SegmentView| param_name(p)),
            names.len() <= ps.len(),
            ps.take(names.len() as int) + params_of(segs.subrange(i as int, segs.len() as int)) == ps,
            names@.map_values(|v: Vec<char>| v@) == all.take(names.len() as int),
            params@.map_values(|p: ResolvedParam| p@)
                == ps.take(names.len() as int).map_values(|p: SegmentView| resolved_entry(p, ov)),
            first_repeat_from(all, 0) == first_repeat_from(all, names.len() as int),
        decreases parsed.segments.len() - i,
    {
        let ghost rest = segs.subrange(i as int, segs.len() as int);
        let ghost j = names.len() as int;
        assert(rest.drop_first() == segs.subrange(i + 1, segs.len() as int));
        assert(rest[0] == segs[i as int]);
        match &parsed.segments[i] {
            PathSegment::Static(_) => {
                assert(params_of(rest) == params_of(rest.drop_first()));
            },
            PathSegment::Param { name, splat } => {
                let n = chars_of(name.as_str());
                proof {
                    assert(params_of(rest) == seq![segs[i as int]] + params_of(rest.drop_first()));
                    assert(ps[j] == segs[i as int]) by {
                        assert((ps.take(j) + params_of(rest))[j] == ps[j]);
                    }
                    assert(all[j] == n@);
                    assert(names@.map_values(|v: Vec<char>| v@) == all.take(j));
                }
                match index_of_name(&names, &n) {
                    Some(_) => {
                        proof {
                            lemma_index_in(all.take(j), n@);
                        }
                        assert(first_repeat_from(all, j) == j);
                        return Err(ResolveError::DuplicateParam(string_of(&n)));
                    },
                    None => {
                        proof {
                            lemma_index_in(all.take(j), n@);
                        }
                        assert(first_repeat_from(all, j) == first_repeat_from(all, j + 1));
                    },
                }
                let ty = match index_of_name(&ovs, &n) {
                    Some(o) => ResolvedType::Override(o),
                    None => ResolvedType::Default(default_param_type(name.as_str(), *splat)),
                };
                proof {
                    lemma_index_in(ov, n@);
                }
                let nm = string_of(&n);
                let ghost pbefore = params@.map_values(|p: ResolvedParam| p@);
                let ghost nbefore = names@.map_values(|v: Vec<char>| v@);
                let rp = ResolvedParam { name: nm, ty, splat: *splat };
                assert(rp@ == resolved_entry(ps[j], ov));
                params.push(rp);
                names.push(n);
                proof {
                    assert(params@.map_values(|p: ResolvedParam| p@) == pbefore.push(rp@));
                    assert(names@.map_values(|v: Vec<char>| v@) == nbefore.push(n@));
                    assert(ps.take(j + 1).map_values(|p: SegmentView| resolved_entry(p, ov))
                        == ps.take(j).map_values(|p: SegmentView| resolved_entry(p, ov)).push(resolved_entry(ps[j], ov)));
                    assert(ps.take(j + 1) == ps.take(j).push(ps[j]));
                    assert(all.take(j + 1) == all.take(j).push(all[j]));
                    assert(ps.take(j + 1) + params_of(rest.drop_first()) == ps.take(j) + params_of(rest));
                }
            },
        }
        i = i + 1;
    }
    proof {
        assert(segs.subrange(segs.len() as int, segs.len() as int) =~= Seq::<SegmentView>::empty());
        assert(ps.take(names.len() as int) == ps);
        assert(all.take(names.len() as int) == all);
        assert(first_repeat_from(all, all.len() as int) == -1);
        assert(ps.take(ps.len() as int) == ps);
    }
    let mut k: usize = 0;
    while k < ovs.len()
        invariant
            k <= ovs.len(),
            ovs@.map_values(|v: Vec<char>| v@) == ov,
            names@.map_values(|v: Vec<char>| v@) == all,
            first_missing_from(ov, all, 0) == first_missing_from(ov, all, k as int),
            first_repeat_from(all, 0) == -1,
            segs == parsed.segments@.map_values(|s: PathSegment| s@),
            ov == overrides@.map_values(|o: String| o@),
            ps == params_of(segs),
            all == ps.map_values(|p: SegmentView| param_name(p)),
            params@.map_values(|p: ResolvedParam| p@) == ps.map_values(|p: SegmentView| resolved_entry(p, ov)),
        decreases ovs.len() - k,
    {
        proof {
            lemma_index_in(all, ov[k as int]);
        }
        if index_of_name(&names, &ovs[k]).is_none() {
            assert(first_missing_from(ov, all, k as int) == k);
            let missing = string_of(&ovs[k]);
            return Err(ResolveError::NotInPath(missing));
        }
        k = k + 1;
    }
    assert(first_missing_from(ov, all, k as int) == -1);
    Ok(params)
}


// ---------------------------------------------------------------------------
// Route declaration keywords
// ---------------------------------------------------------------------------

/// The HTTP method of a route line.
#[derive(Debug, Clone, Copy, PartialEq, Eq, Structural)]
pub enum HttpMethod {
    Get,
    Post,
}

/// How a route's response is framed.
#[derive(Debug, Clone, Copy, PartialEq, Eq, Structural)]
pub enum ResponseKind {
    /// Rendered inside the app pane (the default of a non-bare route).
    Pane,
    Modal,
    /// A fragment swapped into a named region.
    Fragment,
    /// A foreign-key picker: a fragment of a table inside a modal.
    FkSelect,
    File,
    Redirect,
    Generation,
    Raw,
}

/// How page slots are combined.
#[derive(Debug, Clone, Copy, PartialEq, Eq, Structural)]
pub enum SlotsMode {
    Fold,
    Clone,
}

/// A route line's method keyword: `get` or `post`.
pub fn http_method_of(word: &str) -> (r: Option<HttpMethod>)
    ensures
        r == (if word@ == "get"@ {
            Some(HttpMethod::Get)
        } else if word@ == "post"@ {
            Some(HttpMethod::Post)
        } else {
            None::<HttpMethod>
        }),
{
    if str_eq(word, "get") {
        Some(HttpMethod::Get)
    } else if str_eq(word, "post") {
        Some(HttpMethod::Post)
    } else {
        None
    }
}

/// A response keyword: `modal`, `file`, `redirect`, `generation`, `raw` or `fragment`.
pub fn response_kind_of(word: &str) -> (r: Option<ResponseKind>)
    ensures
        r == (if word@ == "modal"@ {
            Some(ResponseKind::Modal)
        } else if word@ == "file"@ {
            Some(ResponseKind::File)
        } else if word@ == "redirect"@ {
            Some(ResponseKind::Redirect)
        } else if word@ == "generation"@ {
            Some(ResponseKind::Generation)
        } else if word@ == "raw"@ {
            Some(ResponseKind::Raw)
        } else if word@ == "fragment"@ {
            Some(ResponseKind::Fragment)
        } else {
            None::<ResponseKind>
        }),
{
    if str_eq(word, "modal") {
        Some(ResponseKind::Modal)
    } else if str_eq(word, "file") {
        Some(ResponseKind::File)
    } else if str_eq(word, "redirect") {
        Some(ResponseKind::Redirect)
    } else if str_eq(word, "generation") {
        Some(ResponseKind::Generation)
    } else if str_eq(word, "raw") {
        Some(ResponseKind::Raw)
    } else if str_eq(word, "fragment") {
        Some(ResponseKind::Fragment)
    } else {
        None
    }
}

/// The response of a route line: the one it names, else `Pane`; a `bare`
/// route must name one (`None` then).
pub fn route_response(bare: bool, named: Option<ResponseKind>) -> (r: Option<ResponseKind>)
    ensures
        r == match named {
            Some(k) => Some(k),
            None => if bare { None::<ResponseKind> } else { Some(ResponseKind::Pane) },
        },
{
    match named {
        Some(k) => Some(k),
        None => if bare { None } else { Some(ResponseKind::Pane) },
    }
}

/// The `slots:` keyword: only `clone` is accepted.
pub fn slots_mode_of(word: &str) -> (r: Option<SlotsMode>)
    ensures
        r == (if word@ == "clone"@ { Some(SlotsMode::Clone) } else { None::<SlotsMode> }),
{
    if str_eq(word, "clone") {
        Some(SlotsMode::Clone)
    } else {
        None
    }
}

/// A `pages:` entry keyword: `pane` (true) or `page` (false).
pub fn page_is_pane(word: &str) -> (r: Option<bool>)
    ensures
        r == (if word@ == "pane"@ { Some(true) } else if word@ == "page"@ { Some(false) } else { None::<bool> }),
{
    if str_eq(word, "pane") {
        Some(true)
    } else if str_eq(word, "page") {
        Some(false)
    } else {
        None
    }
}


/// The response keyword's kind (see [`response_kind_of`]).
pub open spec fn response_word(word: Seq<char>) -> Option<ResponseKind> {
    if word == "modal"@ {
        Some(ResponseKind::Modal)
    } else if word == "file"@ {
        Some(ResponseKind::File)
    } else if word == "redirect"@ {
        Some(ResponseKind::Redirect)
    } else if word == "generation"@ {
        Some(ResponseKind::Generation)
    } else if word == "raw"@ {
        Some(ResponseKind::Raw)
    } else if word == "fragment"@ {
        Some(ResponseKind::Fragment)
    } else {
        None
    }
}

/// One trailing option of a route line: a `param name: Type` override or a
/// response keyword.
pub enum RouteOption {
    Param(String),
    Response(String),
}

/// Why a route line's options are refused.
#[derive(Debug, Clone, Copy, PartialEq, Eq, Structural)]
pub enum RouteLineError {
    /// The same `param` is overridden twice.
    DuplicateParam,
    /// A second response keyword.
    DuplicateResponse,
    /// A word that names no response kind.
    UnknownResponse,
    /// A `bare` route without a response keyword.
    BareWithoutResponse,
    /// A method word other than `get` or `post`.
    UnknownMethod,
}

impl RouteLineError {
    /// The diagnostic text of each refusal.
    pub open spec fn message_text(self) -> Seq<char> {
        match self {
            RouteLineError::DuplicateParam => "duplicate `param`"@,
            RouteLineError::DuplicateResponse => "duplicate response kind"@,
            RouteLineError::UnknownResponse => "expected modal, file, redirect, generation, raw, or fragment(Type)"@,
            RouteLineError::BareWithoutResponse =>
                "bare route must specify a response kind: file, modal, redirect, generation, raw, or fragment(SwapKey)"@,
            RouteLineError::UnknownMethod => "expected `get` or `post`"@,
        }
    }

    /// The diagnostic the route macro reports.
    pub fn message(&self) -> (r: &'static str)
        ensures
            r@ == self.message_text(),
            *self == RouteLineError::DuplicateParam ==> r@ == "duplicate `param`"@,
            *self == RouteLineError::DuplicateResponse ==> r@ == "duplicate response kind"@,
            *self == RouteLineError::UnknownResponse ==> r@
                == "expected modal, file, redirect, generation, raw, or fragment(Type)"@,
            *self == RouteLineError::BareWithoutResponse ==> r@
                == "bare route must specify a response kind: file, modal, redirect, generation, raw, or fragment(SwapKey)"@,
            *self == RouteLineError::UnknownMethod ==> r@ == "expected `get` or `post`"@,
    {
        match self {
            RouteLineError::DuplicateParam => "duplicate `param`",
            RouteLineError::DuplicateResponse => "duplicate response kind",
            RouteLineError::UnknownResponse => "expected modal, file, redirect, generation, raw, or fragment(Type)",
            RouteLineError::BareWithoutResponse =>
                "bare route must specify a response kind: file, modal, redirect, generation, raw, or fragment(SwapKey)",
            RouteLineError::UnknownMethod => "expected `get` or `post`",
        }
    }
}

/// The options read in order: the response named so far and the overridden
/// params, or the first refusal.
pub open spec fn options_fold(opts: Seq<RouteOption>) -> Result<(Option<ResponseKind>, Seq<Seq<char>>), RouteLineError>
    decreases opts.len(),
{
    if opts.len() == 0 {
        Ok((None, Seq::empty()))
    } else {
        match options_fold(opts.drop_last()) {
            Err(e) => Err(e),
            Ok((resp, params)) => match opts.last() {
                RouteOption::Param(n) => if params.contains(n@) {
                    Err(RouteLineError::DuplicateParam)
                } else {
                    Ok((resp, params.push(n@)))
                },
                RouteOption::Response(w) => if resp is Some {
                    Err(RouteLineError::DuplicateResponse)
                } else {
                    match response_word(w@) {
                        Some(k) => Ok((Some(k), params)),
                        None => Err(RouteLineError::UnknownResponse),
                    }
                },
            },
        }
    }
}

/// The response kind and param overrides of a route line's options.
pub open spec fn route_options_spec(bare: bool, opts: Seq<RouteOption>) -> Result<(ResponseKind, Seq<Seq<char>>), RouteLineError> {
    match options_fold(opts) {
        Err(e) => Err(e),
        Ok((resp, params)) => match resp {
            Some(k) => Ok((k, params)),
            None => if bare { Err(RouteLineError::BareWithoutResponse) } else { Ok((ResponseKind::Pane, params)) },
        },
    }
}

/// Read a route line's options: each `param` once, at most one response
/// keyword, and a response for a `bare` route.
pub fn route_options(bare: bool, opts: &Vec<RouteOption>) -> (r: Result<(ResponseKind, Vec<String>), RouteLineError>)
    ensures
        match r {
            Ok((k, ps)) => route_options_spec(bare, opts@) == Ok::<(ResponseKind, Seq<Seq<char>>), RouteLineError>(
                (k, ps@.map_values(|p: String| p@)),
            ),
            Err(e) => route_options_spec(bare, opts@) == Err::<(ResponseKind, Seq<Seq<char>>), RouteLineError>(e),
        },
{
    let mut resp: Option<ResponseKind> = None;
    let mut params: Vec<String> = Vec::new();
    let mut i: usize = 0;
    assert(params@.map_values(|p: String| p@) =~= Seq::<Seq<char>>::empty());
    assert(opts@.take(0) =~= Seq::<RouteOption>::empty());
    while i < opts.len()
        invariant
            i <= opts.len(),
            options_fold(opts@.take(i as int)) == Ok::<(Option<ResponseKind>, Seq<Seq<char>>), RouteLineError>(
                (resp, params@.map_values(|p: String| p@)),
            ),
        decreases opts.len() - i,
    {
        proof {
            assert(opts@.take(i + 1).drop_last() == opts@.take(i as int));
            assert(opts@.take(i + 1).last() == opts@[i as int]);
        }
        let ghost pv = params@.map_values(|p: String| p@);
        match &opts[i] {
            RouteOption::Param(n) => {
                if contains_string(&params, n.as_str()) {
                    proof {
                        lemma_options_error_prefix(opts@, i + 1);
                    }
                    return Err(RouteLineError::DuplicateParam);
                }
                params.push(n.clone());
                assert(params@.map_values(|p: String| p@) =~= pv.push(n@));
            },
            RouteOption::Response(w) => {
                if resp.is_some() {
                    proof {
                        lemma_options_error_prefix(opts@, i + 1);
                    }
                    return Err(RouteLineError::DuplicateResponse);
                }
                match response_kind_of(w.as_str()) {
                    Some(k) => {
                        resp = Some(k);
                    },
                    None => {
                        proof {
                            lemma_options_error_prefix(opts@, i + 1);
                        }
                        return Err(RouteLineError::UnknownResponse);
                    },
                }
            },
        }
        i = i + 1;
    }
    assert(opts@.take(opts.len() as int) == opts@);
    match resp {
        Some(k) => Ok((k, params)),
        None => if bare {
            Err(RouteLineError::BareWithoutResponse)
        } else {
            Ok((ResponseKind::Pane, params))
        },
    }
}

/// Whether `s` is one of `v`.
fn contains_string(v: &Vec<String>, s: &str) -> (r: bool)
    ensures
        r == v@.map_values(|p: String| p@).contains(s@),
{
    let ghost pv = v@.map_values(|p: String| p@);
    let mut j: usize = 0;
    while j < v.len()
        invariant
            j <= v.len(),
            pv == v@.map_values(|p: String| p@),
            forall|t: int| 0 <= t < j ==> pv[t] != s@,
        decreases v.len() - j,
    {
        if str_eq(v[j].as_str(), s) {
            assert(pv[j as int] == s@);
            return true;
        }
        j = j + 1;
    }
    false
}

/// A refusal among the first options is the refusal of all of them.
proof fn lemma_options_error_prefix(opts: Seq<RouteOption>, n: int)
    requires
        0 <= n <= opts.len(),
        options_fold(opts.take(n)) is Err,
    ensures
        options_fold(opts) == options_fold(opts.take(n)),
    decreases opts.len() - n,
{
    if n < opts.len() {
        assert(opts.take(n + 1).drop_last() == opts.take(n));
        lemma_options_error_prefix(opts, n + 1);
    } else {
        assert(opts.take(n) == opts);
    }
}

// ---------------------------------------------------------------------------
// Concrete paths of a route value
// ---------------------------------------------------------------------------

/// The value of one placeholder of a route value.
#[derive(Debug, Clone, PartialEq, Eq)]
pub enum ParamValue {
    /// A `{name}` placeholder's text.
    One(String),
    /// A `{*name}` placeholder's pieces.
    Many(Vec<String>),
}

/// The text a placeholder value contributes: the pieces of a splat joined by `/`.
pub open spec fn value_text(v: ParamValue) -> Seq<char> {
    match v {
        ParamValue::One(s) => s@,
        ParamValue::Many(ps) => join(ps@.map_values(|p: String| p@), "/"@),
    }
}

/// The literal text of the template, placeholders left out.
pub open spec fn static_text(segs: Seq<SegmentView>) -> Seq<char>
    decreases segs.len(),
{
    if segs.len() == 0 {
        seq![]
    } else {
        (match segs[0] {
            SegmentView::Lit(t) => t,
            SegmentView::Param(_, _) => seq![],
        }) + static_text(segs.drop_first())
    }
}

/// The template with each placeholder replaced, in order, by the next value.
pub open spec fn filled(segs: Seq<SegmentView>, vals: Seq<ParamValue>) -> Seq<char>
    decreases segs.len(),
{
    if segs.len() == 0 {
        seq![]
    } else {
        match segs[0] {
            SegmentView::Lit(t) => t + filled(segs.drop_first(), vals),
            SegmentView::Param(_, _) => value_text(vals[0]) + filled(segs.drop_first(), vals.drop_first()),
        }
    }
}

/// The concrete path of a route value. A route whose only placeholder is a
/// splat is its static prefix (without trailing `/`, or `/` itself) joined to
/// the splat's pieces; any other route is its template filled in.
pub open spec fn route_path_spec(segs: Seq<SegmentView>, vals: Seq<ParamValue>) -> Seq<char> {
    let ps = params_of(segs);
    if ps.len() == 1 && param_splat(ps[0]) {
        let prefix = static_text(segs);
        let tail = value_text(vals[0]);
        if prefix.len() == 0 || prefix == "/"@ {
            if tail.len() == 0 { "/"@ } else { "/"@ + tail }
        } else {
            let p = trim_end_char(prefix, '/');
            if tail.len() == 0 { p } else { p + "/"@ + tail }
        }
    } else {
        filled(segs, vals)
    }
}

/// The text of one placeholder value.
fn push_value(out: &mut String, v: &ParamValue)
    ensures
        final(out)@ == old(out)@ + value_text(*v),
{
    match v {
        ParamValue::One(s) => push_str(out, s.as_str()),
        ParamValue::Many(ps) => {
            let j = join_strings(ps, "/");
            push_str(out, j.as_str());
        },
    }
}

/// The number of placeholders, and whether the first is a splat.
fn count_params(segments: &Vec<PathSegment>) -> (r: (usize, bool))
    ensures
        r.0 == params_of(segments@.map_values(|s: PathSegment| s@)).len(),
        r.0 > 0 ==> r.1 == param_splat(params_of(segments@.map_values(|s: PathSegment| s@))[0]),
{
    let ghost segs = segments@.map_values(|s: PathSegment| s@);
    let mut n: usize = 0;
    let mut first_splat = false;
    let mut i: usize = segments.len();
    while i > 0
        invariant
            i <= segments.len(),
            segs == segments@.map_values(|s: PathSegment| s@),
            n == params_of(segs.subrange(i as int, segs.len() as int)).len(),
            n > 0 ==> first_splat == param_splat(params_of(segs.subrange(i as int, segs.len() as int))[0]),
            n <= segments.len() - i,
        decreases i,
    {
        let ghost rest = segs.subrange(i - 1, segs.len() as int);
        assert(rest.drop_first() == segs.subrange(i as int, segs.len() as int));
        assert(rest[0] == segs[i - 1]);
        match &segments[i - 1] {
            PathSegment::Static(_) => {},
            PathSegment::Param { splat, .. } => {
                n = n + 1;
                first_splat = *splat;
            },
        }
        i = i - 1;
    }
    assert(segs.subrange(0, segs.len() as int) == segs);
    (n, first_splat)
}

/// The concrete path of a route value: `parsed`'s template with the
/// placeholder values, in order, filled in.
pub fn route_path(parsed: &ParsedPath, values: &Vec<ParamValue>) -> (r: String)
    requires
        values.len() == params_of(parsed.segments@.map_values(|s: PathSegment| s@)).len(),
    ensures
        r@ == route_path_spec(parsed.segments@.map_values(|s: PathSegment| s@), values@),
{
    let ghost segs = parsed.segments@.map_values(|s: PathSegment| s@);
    let (n, first_splat) = count_params(&parsed.segments);
    if n == 1 && first_splat {
        let mut prefix = String::new();
        let mut i: usize = 0;
        assert(segs.subrange(0, segs.len() as int) == segs);
        while i < parsed.segments.len()
            invariant
                i <= parsed.segments.len(),
                segs == parsed.segments@.map_values(|s: PathSegment| s@),
                prefix@ + static_text(segs.subrange(i as int, segs.len() as int)) == static_text(segs),
            decreases parsed.segments.len() - i,
        {
            let ghost rest = segs.subrange(i as int, segs.len() as int);
            assert(rest.drop_first() == segs.subrange(i + 1, segs.len() as int));
            assert(rest[0] == segs[i as int]);
            match &parsed.segments[i] {
                PathSegment::Static(t) => push_str(&mut prefix, t.as_str()),
                PathSegment::Param { .. } => {},
            }
            i = i + 1;
        }
        assert(segs.subrange(i as int, segs.len() as int) =~= Seq::<SegmentView>::empty());
        let mut tail = String::new();
        push_value(&mut tail, &values[0]);
        assert(tail@ == value_text(values@[0]));
        let pv = chars_of(prefix.as_str());
        let slash: Vec<char> = vec!['/'];
        assert(slash@ == "/"@) by {
            reveal_strlit("/");
        }
        let mut out = String::new();
        if pv.len() == 0 || chars_eq(&pv, &slash) {
            push_str(&mut out, "/");
            push_str(&mut out, tail.as_str());
            proof {
                reveal_strlit("/");
            }
            if tail.as_str().is_empty() {
                assert(out@ == "/"@);
            }
        } else {
            let p = trim_end_char_exec(&pv, '/');
            let ps = string_of(&p);
            push_str(&mut out, ps.as_str());
            if !tail.as_str().is_empty() {
                push_str(&mut out, "/");
                push_str(&mut out, tail.as_str());
            }
        }
        out
    } else {
        let mut out = String::new();
        let mut i: usize = 0;
        let mut k: usize = 0;
        assert(segs.subrange(0, segs.len() as int) == segs);
        assert(values@.subrange(0, values@.len() as int) == values@);
        while i < parsed.segments.len()
            invariant
                i <= parsed.segments.len(),
                segs == parsed.segments@.map_values(|s: PathSegment| s@),
                k <= values.len(),
                values.len() - k == params_of(segs.subrange(i as int, segs.len() as int)).len(),
                out@ + filled(segs.subrange(i as int, segs.len() as int), values@.subrange(k as int, values@.len() as int))
                    == filled(segs, values@),
            decreases parsed.segments.len() - i,
        {
            let ghost rest = segs.subrange(i as int, segs.len() as int);
            let ghost vs = values@.subrange(k as int, values@.len() as int);
            assert(rest.drop_first() == segs.subrange(i + 1, segs.len() as int));
            assert(rest[0] == segs[i as int]);
            match &parsed.segments[i] {
                PathSegment::Static(t) => {
                    push_str(&mut out, t.as_str());
                },
                PathSegment::Param { .. } => {
                    assert(vs[0] == values@[k as int]);
                    assert(vs.drop_first() == values@.subrange(k + 1, values@.len() as int));
                    push_value(&mut out, &values[k]);
                    k = k + 1;
                },
            }
            i = i + 1;
        }
        assert(segs.subrange(i as int, segs.len() as int) =~= Seq::<SegmentView>::empty());
        assert(out@ + Seq::<char>::empty() == out@);
        out
    }
}

/// The splat pieces of a path tail: none for "", else the `/`-separated pieces.
pub fn splat_from(s: &str) -> (r: Vec<String>)
    ensures
        r@.map_values(|p: String| p@) == (if s@.len() == 0 { Seq::<Seq<char>>::empty() } else { split_all(s@, '/') }),
{
    let mut out: Vec<String> = Vec::new();
    if s.is_empty() {
        assert(out@.map_values(|p: String| p@) =~= Seq::<Seq<char>>::empty());
        return out;
    }
    let v = chars_of(s);
    let parts = split_all_exec(&v, '/');
    let mut i: usize = 0;
    while i < parts.len()
        invariant
            i <= parts.len(),
            parts@.map_values(|p: Vec<char>| p@) == split_all(s@, '/'),
            out@.map_values(|p: String| p@) == parts@.map_values(|p: Vec<char>| p@).take(i as int),
        decreases parts.len() - i,
    {
        let piece = string_of(&parts[i]);
        let ghost before = out@.map_values(|p: String| p@);
        out.push(piece);
        assert(out@.map_values(|p: String| p@) == before.push(piece@));
        assert(parts@.map_values(|p: Vec<char>| p@).take(i + 1) == parts@.map_values(|p: Vec<char>| p@).take(i as int).push(parts@[i as int]@));
        i = i + 1;
    }
    assert(parts@.map_values(|p: Vec<char>| p@).take(parts@.len() as int) == parts@.map_values(|p: Vec<char>| p@));
    out
}

/// A marker trait a declared route implements, which the HTMX helpers require.
#[derive(Debug, Clone, Copy, PartialEq, Eq, Structural)]
pub enum RouteMarker {
    ModalGet,
    AppPaneGet,
    AppPanePost,
    FragmentGet,
    FragmentPost,
    FkSelectGet,
    FileDownloadGet,
    FileDownloadPost,
    BoostPost,
    GenerationPost,
}

/// The markers of a route by response kind and method.
pub open spec fn response_markers_spec(kind: ResponseKind, method: HttpMethod) -> Seq<RouteMarker> {
    match (kind, method) {
        (ResponseKind::Modal, _) => seq![RouteMarker::ModalGet],
        (ResponseKind::Pane, HttpMethod::Get) => seq![RouteMarker::AppPaneGet],
        (ResponseKind::Pane, HttpMethod::Post) => seq![RouteMarker::AppPanePost],
        (ResponseKind::Fragment, HttpMethod::Get) => seq![RouteMarker::AppPaneGet, RouteMarker::FragmentGet],
        (ResponseKind::Fragment, HttpMethod::Post) => seq![RouteMarker::AppPanePost, RouteMarker::FragmentPost],
        (ResponseKind::FkSelect, HttpMethod::Get) => seq![RouteMarker::AppPaneGet, RouteMarker::FragmentGet, RouteMarker::FkSelectGet],
        (ResponseKind::FkSelect, HttpMethod::Post) => seq![],
        (ResponseKind::File, HttpMethod::Get) => seq![RouteMarker::FileDownloadGet],
        (ResponseKind::File, HttpMethod::Post) => seq![RouteMarker::FileDownloadPost],
        (ResponseKind::Redirect, HttpMethod::Get) => seq![RouteMarker::AppPaneGet],
        (ResponseKind::Redirect, HttpMethod::Post) => seq![RouteMarker::BoostPost],
        (ResponseKind::Generation, _) => seq![RouteMarker::GenerationPost],
        (ResponseKind::Raw, _) => seq![],
    }
}

/// The marker traits a declared route gets.
pub fn response_markers(kind: ResponseKind, method: HttpMethod) -> (r: Vec<RouteMarker>)
    ensures
        r@ == response_markers_spec(kind, method),
{
    let r: Vec<RouteMarker> = match (kind, method) {
        (ResponseKind::Modal, _) => vec![RouteMarker::ModalGet],
        (ResponseKind::Pane, HttpMethod::Get) => vec![RouteMarker::AppPaneGet],
        (ResponseKind::Pane, HttpMethod::Post) => vec![RouteMarker::AppPanePost],
        (ResponseKind::Fragment, HttpMethod::Get) => vec![RouteMarker::AppPaneGet, RouteMarker::FragmentGet],
        (ResponseKind::Fragment, HttpMethod::Post) => vec![RouteMarker::AppPanePost, RouteMarker::FragmentPost],
        (ResponseKind::FkSelect, HttpMethod::Get) => vec![RouteMarker::AppPaneGet, RouteMarker::FragmentGet, RouteMarker::FkSelectGet],
        (ResponseKind::FkSelect, HttpMethod::Post) => vec![],
        (ResponseKind::File, HttpMethod::Get) => vec![RouteMarker::FileDownloadGet],
        (ResponseKind::File, HttpMethod::Post) => vec![RouteMarker::FileDownloadPost],
        (ResponseKind::Redirect, HttpMethod::Get) => vec![RouteMarker::AppPaneGet],
        (ResponseKind::Redirect, HttpMethod::Post) => vec![RouteMarker::BoostPost],
        (ResponseKind::Generation, _) => vec![RouteMarker::GenerationPost],
        (ResponseKind::Raw, _) => vec![],
    };
    assert(r@ =~= response_markers_spec(kind, method));
    r
}

} // verus!
