//! HTML attribute maps for HTMX and extra element attributes.
//!
//! An [`HtmlAttrs`] is an ordered map from attribute names to values: its
//! entries stay sorted by name (code-point order, which is byte order of the
//! UTF-8 text), each name occurring once, so rendering is deterministic.

use vstd::prelude::*;

use crate::text::{
    chars_eq, chars_of, eq_str, escape_attr_seq, push_char, push_escaped_attr, push_str, to_owned,
};

verus! {

/// Lexicographic order of names by code point (`String`'s `Ord`).
pub open spec fn key_lt(a: Seq<char>, b: Seq<char>) -> bool
    decreases a.len(),
{
    if a.len() == 0 {
        b.len() > 0
    } else if b.len() == 0 {
        false
    } else if a[0] != b[0] {
        a[0] < b[0]
    } else {
        key_lt(a.drop_first(), b.drop_first())
    }
}

/// Entries strictly increasing by name.
pub open spec fn sorted_keys(es: Seq<(Seq<char>, Seq<char>)>) -> bool {
    forall|i: int, j: int| 0 <= i < j < es.len() ==> key_lt(#[trigger] es[i].0, #[trigger] es[j].0)
}

/// Set `k` to `v` in the sorted entries: replace the entry named `k`, or insert
/// a new one before the first larger name.
pub open spec fn insert_sorted(es: Seq<(Seq<char>, Seq<char>)>, k: Seq<char>, v: Seq<char>) -> Seq<
    (Seq<char>, Seq<char>),
>
    decreases es.len(),
{
    if es.len() == 0 {
        seq![(k, v)]
    } else if es[0].0 == k {
        es.update(0, (k, v))
    } else if key_lt(k, es[0].0) {
        seq![(k, v)] + es
    } else {
        seq![es[0]] + insert_sorted(es.drop_first(), k, v)
    }
}

/// Set every entry of `os` in turn (first to last) on `es`.
pub open spec fn merge_entries(es: Seq<(Seq<char>, Seq<char>)>, os: Seq<(Seq<char>, Seq<char>)>) -> Seq<
    (Seq<char>, Seq<char>),
>
    decreases os.len(),
{
    if os.len() == 0 {
        es
    } else {
        merge_entries(insert_sorted(es, os[0].0, os[0].1), os.drop_first())
    }
}

/// The entries as a finite map from name to value.
pub open spec fn entries_map(es: Seq<(Seq<char>, Seq<char>)>) -> Map<Seq<char>, Seq<char>>
    decreases es.len(),
{
    if es.len() == 0 {
        Map::empty()
    } else {
        entries_map(es.drop_last()).insert(es.last().0, es.last().1)
    }
}

/// ` name="escaped value"` for one entry.
pub open spec fn render_entry(e: (Seq<char>, Seq<char>)) -> Seq<char> {
    seq![' '] + e.0 + seq!['=', '"'] + escape_attr_seq(e.1) + seq!['"']
}

/// Concatenation of every rendered entry, in order.
pub open spec fn render_entries(es: Seq<(Seq<char>, Seq<char>)>) -> Seq<char>
    decreases es.len(),
{
    if es.len() == 0 {
        seq![]
    } else {
        render_entries(es.drop_last()) + render_entry(es.last())
    }
}

/// The value under `k`, if any.
pub open spec fn lookup(es: Seq<(Seq<char>, Seq<char>)>, k: Seq<char>) -> Option<Seq<char>> {
    if exists|i: int| 0 <= i < es.len() && es[i].0 == k {
        let i = choose|i: int| 0 <= i < es.len() && es[i].0 == k;
        Some(es[i].1)
    } else {
        None
    }
}

// --- order lemmas -------------------------------------------------------------

/// `key_lt` is irreflexive.
pub proof fn lemma_key_lt_irrefl(a: Seq<char>)
    ensures
        !key_lt(a, a),
    decreases a.len(),
{
    if a.len() > 0 {
        lemma_key_lt_irrefl(a.drop_first());
    }
}

/// `key_lt` is transitive.
pub proof fn lemma_key_lt_trans(a: Seq<char>, b: Seq<char>, c: Seq<char>)
    requires
        key_lt(a, b),
        key_lt(b, c),
    ensures
        key_lt(a, c),
    decreases a.len(),
{
    if a.len() > 0 && b.len() > 0 && c.len() > 0 && a[0] == b[0] && b[0] == c[0] {
        lemma_key_lt_trans(a.drop_first(), b.drop_first(), c.drop_first());
    }
}

/// Any two names are equal or ordered one way.
pub proof fn lemma_key_lt_total(a: Seq<char>, b: Seq<char>)
    ensures
        a == b || key_lt(a, b) || key_lt(b, a),
    decreases a.len(),
{
    if a.len() > 0 && b.len() > 0 && a[0] == b[0] {
        lemma_key_lt_total(a.drop_first(), b.drop_first());
        if a.drop_first() == b.drop_first() {
            assert(a == seq![a[0]] + a.drop_first());
            assert(b == seq![b[0]] + b.drop_first());
        }
    } else if a.len() == 0 && b.len() == 0 {
        assert(a == b);
    } else if a.len() > 0 && b.len() > 0 {
    }
}

/// `key_lt` is asymmetric.
pub proof fn lemma_key_lt_asym(a: Seq<char>, b: Seq<char>)
    requires
        key_lt(a, b),
    ensures
        !key_lt(b, a),
{
    if key_lt(b, a) {
        lemma_key_lt_trans(a, b, a);
        lemma_key_lt_irrefl(a);
    }
}

// --- insert lemmas --------------------------------------------------------------

/// `insert_sorted` splices `(k, v)` at the first entry whose name is not below `k`.
pub proof fn lemma_insert_sorted_at(es: Seq<(Seq<char>, Seq<char>)>, k: Seq<char>, v: Seq<char>, i: int)
    requires
        sorted_keys(es),
        0 <= i <= es.len(),
        forall|j: int| 0 <= j < i ==> key_lt(#[trigger] es[j].0, k),
        i < es.len() ==> !key_lt(es[i].0, k),
    ensures
        i < es.len() && es[i].0 == k ==> insert_sorted(es, k, v) == es.update(i, (k, v)),
        !(i < es.len() && es[i].0 == k) ==> insert_sorted(es, k, v) == es.take(i) + seq![(k, v)]
            + es.skip(i),
    decreases es.len(),
{
    if es.len() == 0 {
        assert(es.take(0) + seq![(k, v)] + es.skip(0) == seq![(k, v)]);
    } else if i == 0 {
        if es[0].0 == k {
        } else {
            lemma_key_lt_total(es[0].0, k);
            assert(es.take(0) + seq![(k, v)] + es.skip(0) == seq![(k, v)] + es);
        }
    } else {
        let t = es.drop_first();
        assert(key_lt(es[0].0, k));
        lemma_key_lt_irrefl(k);
        lemma_key_lt_asym(es[0].0, k);
        assert(sorted_keys(t)) by {
            assert forall|a: int, b: int| 0 <= a < b < t.len() implies key_lt(#[trigger] t[a].0, #[trigger] t[b].0) by {
                assert(t[a] == es[a + 1] && t[b] == es[b + 1]);
            }
        }
        assert forall|j: int| 0 <= j < i - 1 implies key_lt(#[trigger] t[j].0, k) by {
            assert(t[j] == es[j + 1]);
        }
        lemma_insert_sorted_at(t, k, v, i - 1);
        if i < es.len() && es[i].0 == k {
            assert(insert_sorted(es, k, v) == seq![es[0]] + t.update(i - 1, (k, v)));
            assert(seq![es[0]] + t.update(i - 1, (k, v)) == es.update(i, (k, v)));
        } else {
            assert(seq![es[0]] + (t.take(i - 1) + seq![(k, v)] + t.skip(i - 1)) == es.take(i) + seq![
                (k, v),
            ] + es.skip(i));
        }
    }
}

/// Setting a name keeps the entries sorted.
pub proof fn lemma_insert_sorted_sorted(es: Seq<(Seq<char>, Seq<char>)>, k: Seq<char>, v: Seq<char>)
    requires
        sorted_keys(es),
    ensures
        sorted_keys(insert_sorted(es, k, v)),
        forall|j: int| 0 <= j < insert_sorted(es, k, v).len() ==> #[trigger] insert_sorted(es, k, v)[j].0 == k
            || exists|m: int| 0 <= m < es.len() && es[m].0 == insert_sorted(es, k, v)[j].0,
    decreases es.len(),
{
    let r = insert_sorted(es, k, v);
    if es.len() == 0 {
    } else if es[0].0 == k {
        assert forall|a: int, b: int| 0 <= a < b < r.len() implies key_lt(#[trigger] r[a].0, #[trigger] r[b].0) by {
            assert(r[a].0 == es[a].0 && r[b].0 == es[b].0);
        }
        assert forall|j: int| 0 <= j < r.len() implies #[trigger] r[j].0 == k || exists|m: int|
            0 <= m < es.len() && es[m].0 == r[j].0 by {
            if j > 0 {
                assert(es[j].0 == r[j].0);
            }
        }
    } else if key_lt(k, es[0].0) {
        assert forall|a: int, b: int| 0 <= a < b < r.len() implies key_lt(#[trigger] r[a].0, #[trigger] r[b].0) by {
            if a == 0 {
                assert(r[b] == es[b - 1]);
                if b - 1 > 0 {
                    lemma_key_lt_trans(k, es[0].0, es[b - 1].0);
                }
            } else {
                assert(r[a] == es[a - 1] && r[b] == es[b - 1]);
            }
        }
        assert forall|j: int| 0 <= j < r.len() implies #[trigger] r[j].0 == k || exists|m: int|
            0 <= m < es.len() && es[m].0 == r[j].0 by {
            if j > 0 {
                assert(es[j - 1].0 == r[j].0);
            }
        }
    } else {
        let t = es.drop_first();
        assert(sorted_keys(t)) by {
            assert forall|a: int, b: int| 0 <= a < b < t.len() implies key_lt(#[trigger] t[a].0, #[trigger] t[b].0) by {
                assert(t[a] == es[a + 1] && t[b] == es[b + 1]);
            }
        }
        lemma_insert_sorted_sorted(t, k, v);
        lemma_key_lt_total(k, es[0].0);
        let rt = insert_sorted(t, k, v);
        assert(r == seq![es[0]] + rt);
        assert forall|a: int, b: int| 0 <= a < b < r.len() implies key_lt(#[trigger] r[a].0, #[trigger] r[b].0) by {
            if a == 0 {
                assert(r[b] == rt[b - 1]);
                if rt[b - 1].0 == k {
                } else {
                    let m = choose|m: int| 0 <= m < t.len() && t[m].0 == rt[b - 1].0;
                    assert(t[m] == es[m + 1]);
                }
            } else {
                assert(r[a] == rt[a - 1] && r[b] == rt[b - 1]);
            }
        }
        assert forall|j: int| 0 <= j < r.len() implies #[trigger] r[j].0 == k || exists|m: int|
            0 <= m < es.len() && es[m].0 == r[j].0 by {
            if j == 0 {
                assert(es[0].0 == r[0].0);
            } else {
                assert(r[j] == rt[j - 1]);
                if rt[j - 1].0 != k {
                    let m = choose|m: int| 0 <= m < t.len() && t[m].0 == rt[j - 1].0;
                    assert(es[m + 1].0 == r[j].0);
                }
            }
        }
    }
}

/// Merging keeps the entries sorted.
pub proof fn lemma_merge_sorted(es: Seq<(Seq<char>, Seq<char>)>, os: Seq<(Seq<char>, Seq<char>)>)
    requires
        sorted_keys(es),
    ensures
        sorted_keys(merge_entries(es, os)),
    decreases os.len(),
{
    if os.len() > 0 {
        lemma_insert_sorted_sorted(es, os[0].0, os[0].1);
        lemma_merge_sorted(insert_sorted(es, os[0].0, os[0].1), os.drop_first());
    }
}

/// Rendering distributes over concatenation of entry sequences.
pub proof fn lemma_render_add(a: Seq<(Seq<char>, Seq<char>)>, b: Seq<(Seq<char>, Seq<char>)>)
    ensures
        render_entries(a + b) == render_entries(a) + render_entries(b),
    decreases b.len(),
{
    if b.len() == 0 {
        assert(a + b == a);
    } else {
        lemma_render_add(a, b.drop_last());
        assert((a + b).drop_last() == a + b.drop_last());
    }
}

// ---------------------------------------------------------------------------
// The map
// ---------------------------------------------------------------------------

/// Ordered map of HTML attribute names to values.
pub struct HtmlAttrs {
    attrs: Vec<(String, String)>,
}

impl View for HtmlAttrs {
    type V = Seq<(Seq<char>, Seq<char>)>;

    closed spec fn view(&self) -> Seq<(Seq<char>, Seq<char>)> {
        self.attrs@.map_values(|p: (String, String)| (p.0@, p.1@))
    }
}

impl HtmlAttrs {
    #[verifier::type_invariant]
    spec fn entries_sorted(self) -> bool {
        sorted_keys(self@)
    }

    /// An empty attribute map.
    pub fn new() -> (r: Self)
        ensures
            r@ == Seq::<(Seq<char>, Seq<char>)>::empty(),
            sorted_keys(r@),
    {
        let r = HtmlAttrs { attrs: Vec::new() };
        assert(r@ =~= Seq::<(Seq<char>, Seq<char>)>::empty());
        r
    }

    /// Set `key` to `value`, replacing any previous value.
    pub fn set(self, key: &str, value: &str) -> (r: Self)
        ensures
            sorted_keys(self@),
            r@ == insert_sorted(self@, key@, value@),
            sorted_keys(r@),
    {
        proof {
            use_type_invariant(&self);
        }
        let kv = chars_of(key);
        let mut attrs = self.attrs;
        let ghost es = attrs@.map_values(|p: (String, String)| (p.0@, p.1@));
        let mut i: usize = 0;
        let mut scanning = true;
        while scanning && i < attrs.len()
            invariant
                i <= attrs.len(),
                es == attrs@.map_values(|p: (String, String)| (p.0@, p.1@)),
                sorted_keys(es),
                forall|j: int| 0 <= j < i ==> key_lt(#[trigger] es[j].0, key@),
                !scanning ==> i < es.len() && !key_lt(es[i as int].0, key@),
                kv@ == key@,
            decreases attrs.len() - i, if scanning { 1int } else { 0int },
        {
            let ek = chars_of(attrs[i].0.as_str());
            assert(es[i as int].0 == ek@);
            if !key_lt_exec(&ek, &kv) {
                scanning = false;
            } else {
                i = i + 1;
            }
        }
        proof {
            lemma_insert_sorted_at(es, key@, value@, i as int);
        }
        let new_entry = (to_owned(key), to_owned(value));
        if i < attrs.len() && eq_str(&chars_of(attrs[i].0.as_str()), key) {
            attrs.set(i, new_entry);
            assert(attrs@.map_values(|p: (String, String)| (p.0@, p.1@)) =~= es.update(
                i as int,
                (key@, value@),
            ));
        } else {
            attrs.insert(i, new_entry);
            assert(attrs@.map_values(|p: (String, String)| (p.0@, p.1@)) =~= es.take(i as int)
                + seq![(key@, value@)] + es.skip(i as int));
        }
        proof {
            lemma_insert_sorted_sorted(es, key@, value@);
        }
        HtmlAttrs { attrs }
    }

    /// Set every entry of `other` on `self`, in `other`'s order.
    pub fn merge(self, other: &HtmlAttrs) -> (r: Self)
        ensures
            sorted_keys(self@),
            sorted_keys(other@),
            r@ == merge_entries(self@, other@),
            sorted_keys(r@),
    {
        proof {
            use_type_invariant(&self);
            use_type_invariant(other);
        }
        let mut acc = self;
        let mut i: usize = 0;
        assert(other@.skip(0) == other@);
        while i < other.attrs.len()
            invariant
                i <= other.attrs.len(),
                merge_entries(self@, other@) == merge_entries(acc@, other@.skip(i as int)),
                sorted_keys(acc@),
            decreases other.attrs.len() - i,
        {
            let k = other.attrs[i].0.as_str();
            let v = other.attrs[i].1.as_str();
            assert(other@.skip(i as int)[0] == other@[i as int]);
            assert(other@.skip(i as int).drop_first() == other@.skip(i + 1));
            acc = acc.set(k, v);
            i = i + 1;
        }
        assert(other@.skip(other@.len() as int) =~= Seq::<(Seq<char>, Seq<char>)>::empty());
        acc
    }

    /// A copy of this attribute map.
    pub fn duplicate(&self) -> (r: Self)
        ensures
            r@ == self@,
            sorted_keys(r@),
    {
        proof {
            use_type_invariant(self);
        }
        let mut attrs: Vec<(String, String)> = Vec::new();
        let mut i: usize = 0;
        while i < self.attrs.len()
            invariant
                i <= self.attrs.len(),
                attrs@.map_values(|p: (String, String)| (p.0@, p.1@)) == self@.take(i as int),
            decreases self.attrs.len() - i,
        {
            let k = self.attrs[i].0.clone();
            let v = self.attrs[i].1.clone();
            let ghost before = attrs@;
            attrs.push((k, v));
            assert(self@.take(i + 1) == self@.take(i as int).push(self@[i as int]));
            assert(attrs@.map_values(|p: (String, String)| (p.0@, p.1@)) == before.map_values(
                |p: (String, String)| (p.0@, p.1@),
            ).push(self@[i as int]));
            i = i + 1;
        }
        assert(self@.take(self@.len() as int) == self@);
        HtmlAttrs { attrs }
    }

    /// Whether no attribute is set.
    pub fn is_empty(&self) -> (r: bool)
        ensures
            r == (self@.len() == 0),
    {
        self.attrs.len() == 0
    }

    /// Number of attributes.
    pub fn len(&self) -> (r: usize)
        ensures
            r == self@.len(),
    {
        self.attrs.len()
    }

    /// The `i`-th entry (in name order).
    pub fn entry(&self, i: usize) -> (r: (&str, &str))
        requires
            i < self@.len(),
        ensures
            (r.0@, r.1@) == self@[i as int],
    {
        (self.attrs[i].0.as_str(), self.attrs[i].1.as_str())
    }

    /// Whether `key` is set.
    pub fn contains_key(&self, key: &str) -> (r: bool)
        ensures
            r == (lookup(self@, key@) is Some),
    {
        match self.get(key) {
            Some(_) => true,
            None => false,
        }
    }

    /// The value under `key`, if set.
    pub fn get(&self, key: &str) -> (r: Option<String>)
        ensures
            match r {
                Some(v) => lookup(self@, key@) == Some(v@),
                None => lookup(self@, key@) is None,
            },
    {
        let kv = chars_of(key);
        let mut i: usize = 0;
        while i < self.attrs.len()
            invariant
                i <= self.attrs.len(),
                kv@ == key@,
                forall|j: int| 0 <= j < i ==> (#[trigger] self@[j]).0 != key@,
            decreases self.attrs.len() - i,
        {
            let ek = chars_of(self.attrs[i].0.as_str());
            assert(self@[i as int].0 == ek@);
            if chars_eq(&ek, &kv) {
                proof {
                    use_type_invariant(self);
                    let c = choose|c: int| 0 <= c < self@.len() && self@[c].0 == key@;
                    if c != i {
                        if c < i {
                        } else {
                            assert(key_lt(self@[i as int].0, self@[c].0));
                            lemma_key_lt_irrefl(key@);
                        }
                    }
                }
                let v = self.attrs[i].1.clone();
                return Some(v);
            }
            i = i + 1;
        }
        None
    }

    /// Space-prefixed `key="escaped"` pairs, in name order, for injection into open tags.
    pub fn as_string(&self) -> (r: String)
        ensures
            sorted_keys(self@),
            r@ == render_entries(self@),
    {
        proof {
            use_type_invariant(self);
        }
        let mut out = String::new();
        let mut i: usize = 0;
        while i < self.attrs.len()
            invariant
                i <= self.attrs.len(),
                out@ == render_entries(self@.take(i as int)),
            decreases self.attrs.len() - i,
        {
            let ghost before = out@;
            push_char(&mut out, ' ');
            push_str(&mut out, self.attrs[i].0.as_str());
            proof {
                reveal_strlit("=\"");
            }
            out.append("=\"");
            push_escaped_attr(&mut out, self.attrs[i].1.as_str());
            push_char(&mut out, '"');
            assert(self@.take(i + 1).drop_last() == self@.take(i as int));
            assert(self@[i as int] == (self.attrs@[i as int].0@, self.attrs@[i as int].1@));
            assert(out@ == before + render_entry(self@[i as int]));
            i = i + 1;
        }
        assert(self@.take(self@.len() as int) == self@);
        out
    }
}

/// Lexicographic comparison of two names by code point.
pub fn key_lt_exec(a: &Vec<char>, b: &Vec<char>) -> (r: bool)
    ensures
        r == key_lt(a@, b@),
{
    let mut i: usize = 0;
    assert(a@.skip(0) == a@ && b@.skip(0) == b@);
    while i < a.len() && i < b.len()
        invariant
            i <= a.len(),
            i <= b.len(),
            key_lt(a@, b@) == key_lt(a@.skip(i as int), b@.skip(i as int)),
        decreases a.len() - i,
    {
        if a[i] != b[i] {
            assert(a@.skip(i as int)[0] == a@[i as int]);
            assert(b@.skip(i as int)[0] == b@[i as int]);
            return a[i] < b[i];
        }
        assert(a@.skip(i as int).drop_first() == a@.skip(i + 1));
        assert(b@.skip(i as int).drop_first() == b@.skip(i + 1));
        i = i + 1;
    }
    i < b.len()
}

} // verus!
