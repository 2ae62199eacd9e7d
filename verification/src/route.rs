//! Typed route values: the path/URL of a route and the response-kind markers
//! that the HTMX helpers require of the routes they target.

use vstd::prelude::*;

use crate::text::{
    decimal, ends_with, push_char, push_decimal, push_str, to_owned,
};

verus! {

/// A route declared with a static path literal.
pub trait RouteTag {
    /// The path literal (may hold `{param}` segments).
    const PATH: &'static str;
}

/// A route value that can produce its concrete path and URL.
///
/// Implemented by route types (usually generated per route): `path_spec` is
/// the path a value stands for, `path` produces it, and `url` is that path
/// with a trailing slash.
pub trait RouteUrl: Sized {
    /// The concrete path the route value stands for.
    spec fn path_spec(&self) -> Seq<char>;

    /// Concrete path (no trailing slash added).
    fn path(self) -> (r: String)
        ensures
            r@ == self.path_spec(),
    ;

    /// Concrete URL: the path with a trailing slash.
    fn url(self) -> (r: String)
        ensures
            r@ == trailing_slash_spec(self.path_spec()),
    {
        let p = self.path();
        trailing_slash(p.as_str())
    }
}

/// GET route answered with an app pane.
pub trait AppPaneGet {}

/// POST route answered with an app pane (re-rendered form on failure).
pub trait AppPanePost {}

/// POST route answered with a boosted redirect.
pub trait BoostPost {}

/// POST route answered with a file download.
pub trait FileDownloadPost {}

/// GET route answered with a fragment for region `K`.
pub trait FragmentGet<K> {}

/// POST route answered with a fragment for region `K`.
pub trait FragmentPost<K> {}

/// GET route answered with a picker modal `M` holding table `K`.
pub trait FkSelectGet<K, M> {}

/// `path` with a trailing `/` (unchanged when it already ends with one).
pub open spec fn trailing_slash_spec(path: Seq<char>) -> Seq<char> {
    if ends_with(path, seq!['/']) {
        path
    } else {
        path.push('/')
    }
}

/// `path` with a trailing slash.
pub fn trailing_slash(path: &str) -> (r: String)
    ensures
        r@ == trailing_slash_spec(path@),
{
    let v = crate::text::chars_of(path);
    let mut out = to_owned(path);
    if v.len() > 0 && v[v.len() - 1] == '/' {
        assert(path@.subrange(path@.len() - 1, path@.len() as int) == seq!['/']);
        out
    } else {
        proof {
            if ends_with(path@, seq!['/']) {
                assert(path@[path@.len() - 1] == path@.subrange(path@.len() - 1, path@.len() as int)[0]);
            }
        }
        push_char(&mut out, '/');
        out
    }
}

/// `key=value` query pairs joined by `&`.
pub open spec fn query_string(pairs: Seq<(Seq<char>, Seq<char>)>) -> Seq<char>
    decreases pairs.len(),
{
    if pairs.len() == 0 {
        seq![]
    } else if pairs.len() == 1 {
        pairs[0].0 + seq!['='] + pairs[0].1
    } else {
        query_string(pairs.drop_last()) + seq!['&'] + pairs.last().0 + seq!['='] + pairs.last().1
    }
}

/// Builds a route path with a query string appended.
pub struct RouteQueryBuilder {
    path: String,
    pairs: Vec<(String, String)>,
}

impl RouteQueryBuilder {
    /// The route path this builder extends.
    pub closed spec fn base(&self) -> Seq<char> {
        self.path@
    }

    /// The query pairs collected so far, in order.
    pub closed spec fn pairs(&self) -> Seq<(Seq<char>, Seq<char>)> {
        self.pairs@.map_values(|p: (String, String)| (p.0@, p.1@))
    }

    /// Start from a route value's path.
    pub fn new<R: RouteUrl>(route: R) -> (r: Self)
        ensures
            r.base() == route.path_spec(),
            r.pairs() == Seq::<(Seq<char>, Seq<char>)>::empty(),
    {
        let path = route.path();
        let r = RouteQueryBuilder { path, pairs: Vec::new() };
        assert(r.pairs() =~= Seq::<(Seq<char>, Seq<char>)>::empty());
        r
    }

    /// Append `key=value` with a decimal value.
    pub fn query(self, key: &str, value: u64) -> (r: Self)
        ensures
            r.base() == self.base(),
            r.pairs() == self.pairs().push((key@, decimal(value as nat))),
    {
        let mut v = String::new();
        push_decimal(&mut v, value);
        assert(Seq::<char>::empty() + decimal(value as nat) == decimal(value as nat));
        self.query_str(key, v.as_str())
    }

    /// Append `key=value` with a text value.
    pub fn query_str(self, key: &str, value: &str) -> (r: Self)
        ensures
            r.base() == self.base(),
            r.pairs() == self.pairs().push((key@, value@)),
    {
        let mut pairs = self.pairs;
        pairs.push((to_owned(key), to_owned(value)));
        let r = RouteQueryBuilder { path: self.path, pairs };
        assert(r.pairs() =~= self.pairs().push((key@, value@)));
        r
    }

    /// Append `key=value` when `value` is present.
    pub fn query_opt(self, key: &str, value: Option<&str>) -> (r: Self)
        ensures
            r.base() == self.base(),
            r.pairs() == match value {
                Some(v) => self.pairs().push((key@, v@)),
                None => self.pairs(),
            },
    {
        match value {
            Some(v) => self.query_str(key, v),
            None => self,
        }
    }

    /// The path followed by `?` and the query pairs (just the path when there are none).
    pub fn build_with_query(&self) -> (r: String)
        ensures
            r@ == if self.pairs().len() == 0 {
                self.base()
            } else {
                self.base() + seq!['?'] + query_string(self.pairs())
            },
    {
        let mut out = to_owned(self.path.as_str());
        if self.pairs.len() == 0 {
            return out;
        }
        push_char(&mut out, '?');
        let ghost start = out@;
        let mut i: usize = 0;
        while i < self.pairs.len()
            invariant
                i <= self.pairs.len(),
                out@ == start + query_string(self.pairs().take(i as int)),
            decreases self.pairs.len() - i,
        {
            let ghost before = out@;
            if i > 0 {
                push_char(&mut out, '&');
            }
            push_str(&mut out, self.pairs[i].0.as_str());
            push_char(&mut out, '=');
            push_str(&mut out, self.pairs[i].1.as_str());
            proof {
                let t = self.pairs().take(i + 1);
                assert(t.drop_last() == self.pairs().take(i as int));
                assert(t.last() == (self.pairs@[i as int].0@, self.pairs@[i as int].1@));
                if i == 0 {
                    assert(self.pairs().take(0) =~= Seq::<(Seq<char>, Seq<char>)>::empty());
                    assert(before == start);
                }
            }
            i = i + 1;
        }
        assert(self.pairs().take(self.pairs().len() as int) == self.pairs());
        out
    }
}

} // verus!
