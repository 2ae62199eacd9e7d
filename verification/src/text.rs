//! Character-sequence helpers shared by the string-building modules.
//!
//! Every string function of the library is specified over `Seq<char>`, the view
//! of `str` and `String`. This module holds the spec vocabulary (prefixes,
//! searching, trimming, escaping, decimal and hex digits) and the executable
//! helpers that the other modules build on.

use vstd::prelude::*;

verus! {

// ---------------------------------------------------------------------------
// Spec vocabulary
// ---------------------------------------------------------------------------

/// `p` is a prefix of `s`.
pub open spec fn starts_with(s: Seq<char>, p: Seq<char>) -> bool {
    p.len() <= s.len() && s.subrange(0, p.len() as int) == p
}

/// `p` is a suffix of `s`.
pub open spec fn ends_with(s: Seq<char>, p: Seq<char>) -> bool {
    p.len() <= s.len() && s.subrange(s.len() - p.len(), s.len() as int) == p
}

/// Index of the first occurrence of `c` in `s`, or `-1`.
pub open spec fn find_char(s: Seq<char>, c: char) -> int
    decreases s.len(),
{
    if s.len() == 0 {
        -1
    } else if s[0] == c {
        0
    } else {
        let r = find_char(s.drop_first(), c);
        if r < 0 {
            -1
        } else {
            r + 1
        }
    }
}

/// `s` holds `c` somewhere.
pub open spec fn has_char(s: Seq<char>, c: char) -> bool {
    exists|i: int| 0 <= i < s.len() && s[i] == c
}

/// Index of the first occurrence of the non-empty `p` in `s` (as a substring), or `-1`.
pub open spec fn find_sub(s: Seq<char>, p: Seq<char>) -> int
    decreases s.len(),
{
    if s.len() < p.len() {
        -1
    } else if starts_with(s, p) {
        0
    } else if s.len() == 0 {
        -1
    } else {
        let r = find_sub(s.drop_first(), p);
        if r < 0 {
            -1
        } else {
            r + 1
        }
    }
}

/// `s` split at the first `c`: the part before and (if `c` occurs) the part after.
pub open spec fn split_once(s: Seq<char>, c: char) -> (Seq<char>, Option<Seq<char>>) {
    let i = find_char(s, c);
    if i < 0 {
        (s, None)
    } else {
        (s.subrange(0, i), Some(s.subrange(i + 1, s.len() as int)))
    }
}

/// Pieces of `s` between occurrences of `sep` (as `str::split` yields them; never empty).
pub open spec fn split_all(s: Seq<char>, sep: char) -> Seq<Seq<char>>
    decreases s.len(),
{
    let i = find_char(s, sep);
    if i < 0 {
        seq![s]
    } else {
        proof {
            lemma_find_char(s, sep);
        }
        seq![s.subrange(0, i)] + split_all(s.subrange(i + 1, s.len() as int), sep)
    }
}

/// Join `parts` with the separator `sep`.
pub open spec fn join(parts: Seq<Seq<char>>, sep: Seq<char>) -> Seq<char>
    decreases parts.len(),
{
    if parts.len() == 0 {
        seq![]
    } else if parts.len() == 1 {
        parts[0]
    } else {
        join(parts.drop_last(), sep) + sep + parts.last()
    }
}

/// Unicode `White_Space`, the property `char::is_whitespace` reports: tab,
/// line feed, vertical tab, form feed, carriage return, space, next line,
/// no-break space, ogham space mark, the spaces U+2000 to U+200A, line and
/// paragraph separators, narrow no-break space, medium mathematical space and
/// ideographic space.
pub open spec fn is_whitespace(c: char) -> bool {
    let n = c as u32;
    ||| 0x09 <= n <= 0x0D
    ||| n == 0x20
    ||| n == 0x85
    ||| n == 0xA0
    ||| n == 0x1680
    ||| 0x2000 <= n <= 0x200A
    ||| n == 0x2028
    ||| n == 0x2029
    ||| n == 0x202F
    ||| n == 0x205F
    ||| n == 0x3000
}

/// Drop leading characters of `s` that satisfy `is_whitespace`.
pub open spec fn trim_start(s: Seq<char>) -> Seq<char>
    decreases s.len(),
{
    if s.len() > 0 && is_whitespace(s[0]) {
        trim_start(s.drop_first())
    } else {
        s
    }
}

/// Drop trailing characters of `s` that satisfy `is_whitespace`.
pub open spec fn trim_end(s: Seq<char>) -> Seq<char>
    decreases s.len(),
{
    if s.len() > 0 && is_whitespace(s.last()) {
        trim_end(s.drop_last())
    } else {
        s
    }
}

/// `str::trim`: both ends stripped of white space.
pub open spec fn trim(s: Seq<char>) -> Seq<char> {
    trim_end(trim_start(s))
}

/// Drop every trailing `c` (`str::trim_end_matches(c)`).
pub open spec fn trim_end_char(s: Seq<char>, c: char) -> Seq<char>
    decreases s.len(),
{
    if s.len() > 0 && s.last() == c {
        trim_end_char(s.drop_last(), c)
    } else {
        s
    }
}

/// ASCII letter or digit.
pub open spec fn is_ascii_alnum(c: char) -> bool {
    ('a' <= c && c <= 'z') || ('A' <= c && c <= 'Z') || ('0' <= c && c <= '9')
}

/// ASCII upper-casing of one character (others unchanged).
pub open spec fn ascii_upper(c: char) -> char {
    if 'a' <= c && c <= 'z' {
        ((c as u32) - 32) as char
    } else {
        c
    }
}

/// ASCII lower-casing of one character (others unchanged).
pub open spec fn ascii_lower(c: char) -> char {
    if 'A' <= c && c <= 'Z' {
        ((c as u32) + 32) as char
    } else {
        c
    }
}

/// ASCII case-insensitive equality (`str::eq_ignore_ascii_case`).
pub open spec fn eq_ignore_ascii_case(a: Seq<char>, b: Seq<char>) -> bool {
    a.len() == b.len() && forall|i: int| 0 <= i < a.len() ==> ascii_lower(#[trigger] a[i]) == ascii_lower(b[i])
}

/// Escape of one character inside a double-quoted HTML attribute.
pub open spec fn escape_attr_char(c: char) -> Seq<char> {
    if c == '&' {
        seq!['&', 'a', 'm', 'p', ';']
    } else if c == '"' {
        seq!['&', 'q', 'u', 'o', 't', ';']
    } else if c == '<' {
        seq!['&', 'l', 't', ';']
    } else {
        seq![c]
    }
}

/// `&`, `"` and `<` replaced by their entities, every other character kept.
pub open spec fn escape_attr_seq(s: Seq<char>) -> Seq<char>
    decreases s.len(),
{
    if s.len() == 0 {
        seq![]
    } else {
        escape_attr_seq(s.drop_last()) + escape_attr_char(s.last())
    }
}

/// The decimal digit character for `d < 10`.
pub open spec fn digit_char(d: nat) -> char {
    (('0' as u32) + d) as char
}

/// Decimal representation of `n` without leading zeros (`"0"` for zero).
pub open spec fn decimal(n: nat) -> Seq<char>
    decreases n,
{
    if n < 10 {
        seq![digit_char(n)]
    } else {
        decimal(n / 10).push(digit_char(n % 10))
    }
}

/// Lower-case hex digit character for `d < 16`.
pub open spec fn hex_digit(d: nat) -> char {
    if d < 10 {
        (('0' as u32) + d) as char
    } else {
        (('a' as u32) + (d - 10)) as char
    }
}

/// The low `w` hex digits of `n`, zero-padded (`{:0w$x}` for values below `16^w`).
pub open spec fn hex_fixed(n: nat, w: nat) -> Seq<char>
    decreases w,
{
    if w == 0 {
        seq![]
    } else {
        hex_fixed(n / 16, (w - 1) as nat).push(hex_digit(n % 16))
    }
}

// ---------------------------------------------------------------------------
// Lemmas
// ---------------------------------------------------------------------------

/// `find_char` returns the first occurrence, or `-1` when there is none.
pub proof fn lemma_find_char(s: Seq<char>, c: char)
    ensures
        -1 <= find_char(s, c) < s.len(),
        find_char(s, c) >= 0 ==> s[find_char(s, c)] == c,
        forall|j: int| 0 <= j < find_char(s, c) ==> s[j] != c,
        find_char(s, c) < 0 ==> forall|j: int| 0 <= j < s.len() ==> s[j] != c,
    decreases s.len(),
{
    if s.len() > 0 && s[0] != c {
        lemma_find_char(s.drop_first(), c);
        assert forall|j: int| 0 < j < s.len() implies s[j] == s.drop_first()[j - 1] by {}
    }
}

/// Characterisation in the other direction: a first occurrence is what `find_char` returns.
pub proof fn lemma_find_char_is(s: Seq<char>, c: char, i: int)
    requires
        -1 <= i < s.len(),
        i >= 0 ==> s[i] == c,
        forall|j: int| 0 <= j < s.len() && (i < 0 || j < i) ==> s[j] != c,
    ensures
        find_char(s, c) == i,
{
    lemma_find_char(s, c);
}

/// Escaping distributes over concatenation.
pub proof fn lemma_escape_attr_add(a: Seq<char>, b: Seq<char>)
    ensures
        escape_attr_seq(a + b) == escape_attr_seq(a) + escape_attr_seq(b),
    decreases b.len(),
{
    if b.len() == 0 {
        assert(a + b == a);
    } else {
        lemma_escape_attr_add(a, b.drop_last());
        assert((a + b).drop_last() == a + b.drop_last());
    }
}

/// An escaped value holds no raw `"` or `<`.
pub proof fn lemma_escape_attr_safe(s: Seq<char>)
    ensures
        !has_char(escape_attr_seq(s), '"'),
        !has_char(escape_attr_seq(s), '<'),
    decreases s.len(),
{
    if s.len() > 0 {
        lemma_escape_attr_safe(s.drop_last());
        let e = escape_attr_seq(s);
        let p = escape_attr_seq(s.drop_last());
        let q = escape_attr_char(s.last());
        assert(e == p + q);
        assert forall|i: int| 0 <= i < e.len() implies e[i] != '"' && e[i] != '<' by {
            if i >= p.len() {
                assert(e[i] == q[i - p.len()]);
            } else {
                assert(e[i] == p[i]);
            }
        }
    }
}

/// Escaping leaves a string without `&`, `"` and `<` unchanged.
pub proof fn lemma_escape_attr_plain(s: Seq<char>)
    requires
        !has_char(s, '&'),
        !has_char(s, '"'),
        !has_char(s, '<'),
    ensures
        escape_attr_seq(s) == s,
    decreases s.len(),
{
    if s.len() > 0 {
        let t = s.drop_last();
        assert(!has_char(t, '&') && !has_char(t, '"') && !has_char(t, '<')) by {
            assert forall|i: int| 0 <= i < t.len() implies t[i] == s[i] by {}
        }
        lemma_escape_attr_plain(t);
        assert(s.last() == s[s.len() - 1]);
        assert(t.push(s.last()) == s);
    }
}

// ---------------------------------------------------------------------------
// Executable helpers
// ---------------------------------------------------------------------------

/// Append one character to a `String` (`String::push`).
#[verifier::external_body]
pub(crate) fn push_char(s: &mut String, c: char)
    ensures
        final(s)@ == old(s)@.push(c),
{
    s.push(c);
}

/// Whether `c` is Unicode white space (what `char::is_whitespace` reports).
pub(crate) fn char_is_whitespace(c: char) -> (r: bool)
    ensures
        r == is_whitespace(c),
{
    let n = c as u32;
    (0x09 <= n && n <= 0x0D) || n == 0x20 || n == 0x85 || n == 0xA0 || n == 0x1680 || (0x2000 <= n && n <= 0x200A)
        || n == 0x2028 || n == 0x2029 || n == 0x202F || n == 0x205F || n == 0x3000
}

/// The characters of `s`, in order.
pub fn chars_of(s: &str) -> (r: Vec<char>)
    ensures
        r@ == s@,
{
    let mut out: Vec<char> = Vec::new();
    for c in it: s.chars()
        invariant
            out@ == it.seq().take(it.index() as int),
            it.seq() == s@,
    {
        out.push(c);
    }
    out
}

/// Append `s[from..to]` to `out`.
pub fn push_range(out: &mut String, s: &Vec<char>, from: usize, to: usize)
    requires
        from <= to <= s.len(),
    ensures
        final(out)@ == old(out)@ + s@.subrange(from as int, to as int),
{
    let mut i = from;
    while i < to
        invariant
            from <= i <= to <= s.len(),
            out@ == old(out)@ + s@.subrange(from as int, i as int),
        decreases to - i,
    {
        push_char(out, s[i]);
        assert(s@.subrange(from as int, i + 1) == s@.subrange(from as int, i as int).push(s@[i as int]));
        i = i + 1;
    }
}

/// A new `String` holding `s[from..to]`.
pub fn string_of_range(s: &Vec<char>, from: usize, to: usize) -> (r: String)
    requires
        from <= to <= s.len(),
    ensures
        r@ == s@.subrange(from as int, to as int),
{
    let mut out = String::new();
    push_range(&mut out, s, from, to);
    assert(Seq::<char>::empty() + s@.subrange(from as int, to as int) == s@.subrange(from as int, to as int));
    out
}

/// A new `String` holding all of `s`.
pub fn string_of(s: &Vec<char>) -> (r: String)
    ensures
        r@ == s@,
{
    let r = string_of_range(s, 0, s.len());
    assert(s@.subrange(0, s@.len() as int) == s@);
    r
}

/// Append a `str` to `out`.
pub fn push_str(out: &mut String, s: &str)
    ensures
        final(out)@ == old(out)@ + s@,
{
    out.append(s);
}

/// A copy of `s` as an owned `String`.
pub fn to_owned(s: &str) -> (r: String)
    ensures
        r@ == s@,
{
    let mut out = String::new();
    out.append(s);
    assert(Seq::<char>::empty() + s@ == s@);
    out
}

/// Index of the first `c` in `s`, if any.
pub fn find(s: &Vec<char>, c: char) -> (r: Option<usize>)
    ensures
        match r {
            Some(i) => i as int == find_char(s@, c),
            None => find_char(s@, c) == -1,
        },
{
    proof {
        lemma_find_char(s@, c);
    }
    let mut i: usize = 0;
    while i < s.len()
        invariant
            i <= s.len(),
            forall|j: int| 0 <= j < i ==> s@[j] != c,
        decreases s.len() - i,
    {
        if s[i] == c {
            proof {
                lemma_find_char_is(s@, c, i as int);
            }
            return Some(i);
        }
        i = i + 1;
    }
    proof {
        lemma_find_char_is(s@, c, -1);
    }
    None
}

/// Index (in `s`) of the first `c` at or after `from`, if any.
pub fn find_from(s: &Vec<char>, from: usize, c: char) -> (r: Option<usize>)
    requires
        from <= s.len(),
    ensures
        match r {
            Some(i) => from <= i < s.len() && i - from == find_char(s@.subrange(from as int, s@.len() as int), c),
            None => find_char(s@.subrange(from as int, s@.len() as int), c) == -1,
        },
{
    let ghost rest = s@.subrange(from as int, s@.len() as int);
    let mut i: usize = from;
    while i < s.len()
        invariant
            from <= i <= s.len(),
            rest == s@.subrange(from as int, s@.len() as int),
            forall|j: int| from <= j < i ==> s@[j] != c,
        decreases s.len() - i,
    {
        if s[i] == c {
            proof {
                assert forall|j: int| 0 <= j < rest.len() && j < i - from implies rest[j] != c by {
                    assert(rest[j] == s@[j + from]);
                }
                lemma_find_char_is(rest, c, i - from);
            }
            return Some(i);
        }
        i = i + 1;
    }
    proof {
        assert forall|j: int| 0 <= j < rest.len() implies rest[j] != c by {
            assert(rest[j] == s@[j + from]);
        }
        lemma_find_char_is(rest, c, -1);
    }
    None
}

/// The strings of `parts` joined with `sep` between them (`[String]::join`).
pub fn join_strings(parts: &Vec<String>, sep: &str) -> (r: String)
    ensures
        r@ == join(parts@.map_values(|p: String| p@), sep@),
{
    let ghost ps = parts@.map_values(|p: String| p@);
    let mut out = String::new();
    let mut i: usize = 0;
    while i < parts.len()
        invariant
            i <= parts.len(),
            ps == parts@.map_values(|p: String| p@),
            out@ == join(ps.take(i as int), sep@),
        decreases parts.len() - i,
    {
        if i > 0 {
            push_str(&mut out, sep);
        }
        push_str(&mut out, parts[i].as_str());
        proof {
            assert(ps.take(i + 1).drop_last() == ps.take(i as int));
            assert(ps.take(i + 1).last() == ps[i as int]);
            if i == 0 {
                assert(ps.take(1) =~= seq![ps[0]]);
                assert(Seq::<char>::empty() + ps[0] == ps[0]);
            }
        }
        i = i + 1;
    }
    assert(ps.take(ps.len() as int) == ps);
    out
}

/// Whether `s` contains `c`.
pub fn contains_char(s: &Vec<char>, c: char) -> (r: bool)
    ensures
        r == has_char(s@, c),
{
    proof {
        lemma_find_char(s@, c);
    }
    match find(s, c) {
        Some(_) => true,
        None => false,
    }
}

/// Whether `s[at..]` starts with `p`.
pub fn starts_with_at(s: &Vec<char>, at: usize, p: &Vec<char>) -> (r: bool)
    requires
        at <= s.len(),
    ensures
        r == starts_with(s@.subrange(at as int, s@.len() as int), p@),
{
    if p.len() > s.len() - at {
        return false;
    }
    let mut i: usize = 0;
    while i < p.len()
        invariant
            p.len() <= s.len() - at,
            i <= p.len(),
            forall|j: int| 0 <= j < i ==> s@[at + j] == p@[j],
        decreases p.len() - i,
    {
        if s[at + i] != p[i] {
            assert(s@.subrange(at as int, s@.len() as int).subrange(0, p@.len() as int)[i as int] != p@[i as int]);
            return false;
        }
        i = i + 1;
    }
    assert(s@.subrange(at as int, s@.len() as int).subrange(0, p@.len() as int) == p@);
    true
}

/// Whether `s` starts with `p`.
pub fn has_prefix(s: &Vec<char>, p: &Vec<char>) -> (r: bool)
    ensures
        r == starts_with(s@, p@),
{
    assert(s@.subrange(0, s@.len() as int) == s@);
    starts_with_at(s, 0, p)
}

/// Whether `s` starts with the `str` `p`.
pub fn str_starts_with(s: &Vec<char>, p: &str) -> (r: bool)
    ensures
        r == starts_with(s@, p@),
{
    let pv = chars_of(p);
    has_prefix(s, &pv)
}

/// Whether `s` ends with `p`.
pub fn has_suffix(s: &Vec<char>, p: &Vec<char>) -> (r: bool)
    ensures
        r == ends_with(s@, p@),
{
    if p.len() > s.len() {
        return false;
    }
    let at = s.len() - p.len();
    let r = starts_with_at(s, at, p);
    assert(s@.subrange(at as int, s@.len() as int).subrange(0, p@.len() as int)
        == s@.subrange(s@.len() - p@.len(), s@.len() as int));
    r
}

/// Whether the two character sequences are equal.
pub fn chars_eq(a: &Vec<char>, b: &Vec<char>) -> (r: bool)
    ensures
        r == (a@ == b@),
{
    if a.len() != b.len() {
        return false;
    }
    let mut i: usize = 0;
    while i < a.len()
        invariant
            a.len() == b.len(),
            i <= a.len(),
            forall|j: int| 0 <= j < i ==> a@[j] == b@[j],
        decreases a.len() - i,
    {
        if a[i] != b[i] {
            return false;
        }
        i = i + 1;
    }
    assert(a@ == b@);
    true
}

/// Whether `a` equals the `str` `b`.
pub fn eq_str(a: &Vec<char>, b: &str) -> (r: bool)
    ensures
        r == (a@ == b@),
{
    let bv = chars_of(b);
    chars_eq(a, &bv)
}

/// Whether two `str`s are equal.
pub fn str_eq(a: &str, b: &str) -> (r: bool)
    ensures
        r == (a@ == b@),
{
    let av = chars_of(a);
    eq_str(&av, b)
}

/// ASCII upper-casing of one character.
pub fn to_ascii_upper(c: char) -> (r: char)
    ensures
        r == ascii_upper(c),
{
    if 'a' <= c && c <= 'z' {
        let u = (c as u32) - 32;
        assert(u < 0xD800);
        char_from_u32_ascii(u)
    } else {
        c
    }
}

/// ASCII lower-casing of one character.
pub fn to_ascii_lower(c: char) -> (r: char)
    ensures
        r == ascii_lower(c),
{
    if 'A' <= c && c <= 'Z' {
        let u = (c as u32) + 32;
        char_from_u32_ascii(u)
    } else {
        c
    }
}

/// The `char` with ASCII code `u`.
pub(crate) fn char_from_u32_ascii(u: u32) -> (r: char)
    requires
        u < 128,
    ensures
        r == u as char,
{
    u as u8 as char
}

/// ASCII case-insensitive equality of two character sequences.
pub fn chars_eq_ignore_ascii_case(a: &Vec<char>, b: &Vec<char>) -> (r: bool)
    ensures
        r == eq_ignore_ascii_case(a@, b@),
{
    if a.len() != b.len() {
        return false;
    }
    let mut i: usize = 0;
    while i < a.len()
        invariant
            a.len() == b.len(),
            i <= a.len(),
            forall|j: int| 0 <= j < i ==> ascii_lower(#[trigger] a@[j]) == ascii_lower(b@[j]),
        decreases a.len() - i,
    {
        if to_ascii_lower(a[i]) != to_ascii_lower(b[i]) {
            return false;
        }
        i = i + 1;
    }
    true
}

/// `str::trim` on a character vector.
pub fn trim_chars(s: &Vec<char>) -> (r: Vec<char>)
    ensures
        r@ == trim(s@),
{
    let mut lo: usize = 0;
    assert(s@.subrange(0, s@.len() as int) == s@);
    while lo < s.len() && char_is_whitespace(s[lo])
        invariant
            lo <= s.len(),
            trim_start(s@) == trim_start(s@.subrange(lo as int, s@.len() as int)),
        decreases s.len() - lo,
    {
        assert(s@.subrange(lo as int, s@.len() as int).drop_first() == s@.subrange(lo + 1, s@.len() as int));
        lo = lo + 1;
    }
    assert(s@.subrange(0, s@.len() as int) == s@);
    let mut hi: usize = s.len();
    while hi > lo && char_is_whitespace(s[hi - 1])
        invariant
            lo <= hi <= s.len(),
            trim_end(s@.subrange(lo as int, s@.len() as int)) == trim_end(s@.subrange(lo as int, hi as int)),
        decreases hi,
    {
        assert(s@.subrange(lo as int, hi as int).drop_last() == s@.subrange(lo as int, hi - 1));
        hi = hi - 1;
    }
    let mut out: Vec<char> = Vec::new();
    let mut i = lo;
    while i < hi
        invariant
            lo <= i <= hi <= s.len(),
            out@ == s@.subrange(lo as int, i as int),
        decreases hi - i,
    {
        out.push(s[i]);
        assert(s@.subrange(lo as int, i + 1) == s@.subrange(lo as int, i as int).push(s@[i as int]));
        i = i + 1;
    }
    proof {
        if lo < s.len() {
            assert(!is_whitespace(s@.subrange(lo as int, s@.len() as int)[0]));
        }
        if hi > lo {
            assert(!is_whitespace(s@.subrange(lo as int, hi as int).last()));
        }
    }
    out
}

/// `str::trim` on a `str`.
pub fn trim_str(s: &str) -> (r: Vec<char>)
    ensures
        r@ == trim(s@),
{
    let v = chars_of(s);
    trim_chars(&v)
}

/// Append `s` with `&`, `"` and `<` escaped.
pub fn push_escaped_attr(out: &mut String, s: &str)
    ensures
        final(out)@ == old(out)@ + escape_attr_seq(s@),
{
    let v = chars_of(s);
    let ghost start = out@;
    let mut i: usize = 0;
    while i < v.len()
        invariant
            i <= v.len(),
            v@ == s@,
            out@ == start + escape_attr_seq(v@.subrange(0, i as int)),
        decreases v.len() - i,
    {
        let c = v[i];
        proof {
            assert(v@.subrange(0, i + 1).drop_last() == v@.subrange(0, i as int));
            reveal_strlit("&amp;");
            reveal_strlit("&quot;");
            reveal_strlit("&lt;");
        }
        if c == '&' {
            out.append("&amp;");
        } else if c == '"' {
            out.append("&quot;");
        } else if c == '<' {
            out.append("&lt;");
        } else {
            push_char(out, c);
        }
        i = i + 1;
    }
    assert(v@.subrange(0, v@.len() as int) == v@);
}

/// Escape a value for use inside a double-quoted HTML attribute.
pub fn escape_attr(value: &str) -> (r: String)
    ensures
        r@ == escape_attr_seq(value@),
{
    let mut out = String::new();
    push_escaped_attr(&mut out, value);
    assert(Seq::<char>::empty() + escape_attr_seq(value@) == escape_attr_seq(value@));
    out
}

/// Append the decimal representation of `n`.
pub fn push_decimal(out: &mut String, n: u64)
    ensures
        final(out)@ == old(out)@ + decimal(n as nat),
    decreases n,
{
    if n >= 10 {
        push_decimal(out, n / 10);
    }
    let d = (n % 10) as u32;
    let c = char_from_u32_ascii(48 + d);
    push_char(out, c);
    proof {
        if n >= 10 {
            assert(old(out)@ + decimal((n / 10) as nat) + seq![c] == old(out)@ + decimal(n as nat));
        } else {
            assert(old(out)@.push(c) == old(out)@ + decimal(n as nat));
        }
    }
}

/// The decimal representation of `n` (`u64::to_string`).
pub fn decimal_string(n: u64) -> (r: String)
    ensures
        r@ == decimal(n as nat),
{
    let mut out = String::new();
    push_decimal(&mut out, n);
    assert(Seq::<char>::empty() + decimal(n as nat) == decimal(n as nat));
    out
}

/// Append the low `w` hex digits of `n`, zero-padded.
pub fn push_hex_fixed(out: &mut String, n: u64, w: u32)
    ensures
        final(out)@ == old(out)@ + hex_fixed(n as nat, w as nat),
    decreases w,
{
    if w == 0 {
        assert(old(out)@ + seq![] == old(out)@);
        return;
    }
    push_hex_fixed(out, n / 16, w - 1);
    let d = (n % 16) as u32;
    let c = if d < 10 {
        char_from_u32_ascii(48 + d)
    } else {
        char_from_u32_ascii(97 + (d - 10))
    };
    push_char(out, c);
    assert(old(out)@ + hex_fixed((n / 16) as nat, (w - 1) as nat) + seq![c] == old(out)@ + hex_fixed(
        n as nat,
        w as nat,
    ));
}


/// `s` split at the first `c` (`str::split_once`).
pub fn split_once_exec(s: &Vec<char>, c: char) -> (r: (Vec<char>, Option<Vec<char>>))
    ensures
        r.0@ == split_once(s@, c).0,
        match r.1 {
            Some(t) => split_once(s@, c).1 == Some(t@),
            None => split_once(s@, c).1 is None,
        },
{
    proof {
        lemma_find_char(s@, c);
    }
    match find(s, c) {
        Some(i) => {
            let a = sub_vec(s, 0, i);
            let b = sub_vec(s, i + 1, s.len());
            (a, Some(b))
        },
        None => {
            let a = sub_vec(s, 0, s.len());
            assert(s@.subrange(0, s@.len() as int) == s@);
            (a, None)
        },
    }
}

/// A copy of `s[from..to]`.
pub fn sub_vec(s: &Vec<char>, from: usize, to: usize) -> (r: Vec<char>)
    requires
        from <= to <= s.len(),
    ensures
        r@ == s@.subrange(from as int, to as int),
{
    let mut out: Vec<char> = Vec::new();
    let mut i = from;
    while i < to
        invariant
            from <= i <= to <= s.len(),
            out@ == s@.subrange(from as int, i as int),
        decreases to - i,
    {
        out.push(s[i]);
        assert(s@.subrange(from as int, i + 1) == s@.subrange(from as int, i as int).push(s@[i as int]));
        i = i + 1;
    }
    out
}

/// All pieces of `s` between occurrences of `sep` (`str::split`).
pub fn split_all_exec(s: &Vec<char>, sep: char) -> (r: Vec<Vec<char>>)
    ensures
        r@.map_values(|v: Vec<char>| v@) == split_all(s@, sep),
{
    let mut out: Vec<Vec<char>> = Vec::new();
    let mut start: usize = 0;
    let mut i: usize = 0;
    assert(s@.subrange(0, s@.len() as int) == s@);
    while i < s.len()
        invariant
            start <= i <= s.len(),
            forall|j: int| start <= j < i ==> s@[j] != sep,
            out@.map_values(|v: Vec<char>| v@) + split_all(s@.subrange(start as int, s@.len() as int), sep)
                == split_all(s@, sep),
        decreases s.len() - i,
    {
        if s[i] == sep {
            let piece = sub_vec(s, start, i);
            proof {
                let rest = s@.subrange(start as int, s@.len() as int);
                lemma_find_char_is(rest, sep, i - start);
                assert(rest.subrange(0, i - start) == piece@);
                assert(rest.subrange(i - start + 1, rest.len() as int) == s@.subrange(i + 1, s@.len() as int));
                assert(split_all(rest, sep) == seq![piece@] + split_all(s@.subrange(i + 1, s@.len() as int), sep));
                assert(out@.push(piece).map_values(|v: Vec<char>| v@) == out@.map_values(|v: Vec<char>| v@).push(piece@));
            }
            out.push(piece);
            start = i + 1;
        }
        i = i + 1;
    }
    let piece = sub_vec(s, start, s.len());
    proof {
        let rest = s@.subrange(start as int, s@.len() as int);
        lemma_find_char_is(rest, sep, -1);
        assert(out@.push(piece).map_values(|v: Vec<char>| v@) == out@.map_values(|v: Vec<char>| v@).push(piece@));
    }
    out.push(piece);
    out
}

/// `s` without its trailing `c`s (`str::trim_end_matches`).
pub fn trim_end_char_exec(s: &Vec<char>, c: char) -> (r: Vec<char>)
    ensures
        r@ == trim_end_char(s@, c),
{
    let mut hi = s.len();
    assert(s@.subrange(0, s@.len() as int) == s@);
    while hi > 0 && s[hi - 1] == c
        invariant
            hi <= s.len(),
            trim_end_char(s@, c) == trim_end_char(s@.subrange(0, hi as int), c),
        decreases hi,
    {
        assert(s@.subrange(0, hi as int).drop_last() == s@.subrange(0, hi - 1));
        hi = hi - 1;
    }
    sub_vec(s, 0, hi)
}

/// The `str` `p` as characters, compared for equality with `s`.
pub fn vec_eq_lit(s: &Vec<char>, p: &str) -> (r: bool)
    ensures
        r == (s@ == p@),
{
    eq_str(s, p)
}

/// `find_sub` returns the first position where `p` occurs, or `-1`.
pub proof fn lemma_find_sub(s: Seq<char>, p: Seq<char>)
    ensures
        -1 <= find_sub(s, p) <= s.len(),
        find_sub(s, p) >= 0 ==> starts_with(s.subrange(find_sub(s, p), s.len() as int), p),
        forall|j: int| 0 <= j < find_sub(s, p) ==> !starts_with(#[trigger] s.subrange(j, s.len() as int), p),
        find_sub(s, p) < 0 ==> forall|j: int| 0 <= j <= s.len() ==> !starts_with(#[trigger] s.subrange(j, s.len() as int), p),
    decreases s.len(),
{
    assert(s.subrange(0, s.len() as int) == s);
    if s.len() < p.len() {
        assert forall|j: int| 0 <= j <= s.len() implies !starts_with(#[trigger] s.subrange(j, s.len() as int), p) by {}
    } else if starts_with(s, p) {
    } else if s.len() == 0 {
        assert forall|j: int| 0 <= j <= s.len() implies !starts_with(#[trigger] s.subrange(j, s.len() as int), p) by {}
    } else {
        let t = s.drop_first();
        lemma_find_sub(t, p);
        assert forall|j: int| 1 <= j <= s.len() implies s.subrange(j, s.len() as int) == #[trigger] t.subrange(j - 1, t.len() as int) by {}
        if find_sub(t, p) >= 0 {
            assert(s.subrange(find_sub(s, p), s.len() as int) == t.subrange(find_sub(t, p), t.len() as int));
            assert forall|j: int| 0 <= j < find_sub(s, p) implies !starts_with(#[trigger] s.subrange(j, s.len() as int), p) by {
                if j > 0 {
                    assert(s.subrange(j, s.len() as int) == t.subrange(j - 1, t.len() as int));
                }
            }
        } else {
            assert forall|j: int| 0 <= j <= s.len() implies !starts_with(#[trigger] s.subrange(j, s.len() as int), p) by {
                if j > 0 {
                    assert(s.subrange(j, s.len() as int) == t.subrange(j - 1, t.len() as int));
                }
            }
        }
    }
}

/// First position of the `str` `p` in `s` (`str::find` with a string pattern).
pub fn find_str(s: &Vec<char>, p: &str) -> (r: Option<usize>)
    ensures
        match r {
            Some(i) => i as int == find_sub(s@, p@),
            None => find_sub(s@, p@) == -1,
        },
{
    let pv = chars_of(p);
    proof {
        lemma_find_sub(s@, p@);
    }
    let mut i: usize = 0;
    while i < s.len()
        invariant
            i <= s.len(),
            pv@ == p@,
            forall|j: int| 0 <= j < i ==> !starts_with(#[trigger] s@.subrange(j, s@.len() as int), p@),
        decreases s.len() - i,
    {
        if starts_with_at(s, i, &pv) {
            proof {
                lemma_find_sub(s@, p@);
                let f = find_sub(s@, p@);
                assert(starts_with(s@.subrange(i as int, s@.len() as int), p@));
                if f >= 0 && f < i {
                    assert(!starts_with(s@.subrange(f, s@.len() as int), p@));
                }
            }
            return Some(i);
        }
        i = i + 1;
    }
    if starts_with_at(s, i, &pv) {
        proof {
            let f = find_sub(s@, p@);
            assert(starts_with(s@.subrange(i as int, s@.len() as int), p@));
            if f >= 0 && f < i {
                assert(!starts_with(s@.subrange(f, s@.len() as int), p@));
            }
        }
        return Some(i);
    }
    proof {
        let f = find_sub(s@, p@);
        if f >= 0 {
            if f < i {
                assert(!starts_with(s@.subrange(f, s@.len() as int), p@));
            }
        }
    }
    None
}

/// Index of the first white-space character of `s`, or `-1`.
pub open spec fn ws_first(s: Seq<char>) -> int
    decreases s.len(),
{
    if s.len() == 0 {
        -1
    } else if is_whitespace(s[0]) {
        0
    } else {
        let r = ws_first(s.drop_first());
        if r < 0 {
            -1
        } else {
            r + 1
        }
    }
}

/// Index of the last white-space character of `s`, or `-1`.
pub open spec fn ws_last(s: Seq<char>) -> int
    decreases s.len(),
{
    if s.len() == 0 {
        -1
    } else if is_whitespace(s.last()) {
        s.len() - 1
    } else {
        ws_last(s.drop_last())
    }
}

/// First white-space separated word of a trimmed string.
pub open spec fn first_word(s: Seq<char>) -> Seq<char> {
    if ws_first(s) < 0 {
        s
    } else {
        s.subrange(0, ws_first(s))
    }
}

/// Last white-space separated word of a trimmed string.
pub open spec fn last_word(s: Seq<char>) -> Seq<char> {
    if ws_last(s) < 0 {
        s
    } else {
        s.subrange(ws_last(s) + 1, s.len() as int)
    }
}

/// ASCII upper-casing of every character.
pub open spec fn ascii_upper_seq(s: Seq<char>) -> Seq<char> {
    s.map_values(|c: char| ascii_upper(c))
}

/// `ws_first` is the first white-space index.
pub proof fn lemma_ws_first(s: Seq<char>)
    ensures
        -1 <= ws_first(s) < s.len(),
        ws_first(s) >= 0 ==> is_whitespace(s[ws_first(s)]),
        forall|j: int| 0 <= j < s.len() && (ws_first(s) < 0 || j < ws_first(s)) ==> !is_whitespace(#[trigger] s[j]),
    decreases s.len(),
{
    if s.len() > 0 && !is_whitespace(s[0]) {
        lemma_ws_first(s.drop_first());
        assert forall|j: int| 0 < j < s.len() implies s[j] == s.drop_first()[j - 1] by {}
    }
}

/// `ws_last` is the last white-space index.
pub proof fn lemma_ws_last(s: Seq<char>)
    ensures
        -1 <= ws_last(s) < s.len(),
        ws_last(s) >= 0 ==> is_whitespace(s[ws_last(s)]),
        forall|j: int| ws_last(s) < j < s.len() ==> !is_whitespace(#[trigger] s[j]),
    decreases s.len(),
{
    if s.len() > 0 && !is_whitespace(s.last()) {
        lemma_ws_last(s.drop_last());
        assert forall|j: int| ws_last(s) < j < s.len() implies !is_whitespace(#[trigger] s[j]) by {
            if j < s.len() - 1 {
                assert(s[j] == s.drop_last()[j]);
            }
        }
    }
}

/// Position of the first white space in `s`, if any.
pub fn ws_first_exec(s: &Vec<char>) -> (r: Option<usize>)
    ensures
        match r {
            Some(i) => i as int == ws_first(s@),
            None => ws_first(s@) < 0,
        },
{
    proof {
        lemma_ws_first(s@);
    }
    let mut i: usize = 0;
    while i < s.len()
        invariant
            i <= s.len(),
            -1 <= ws_first(s@) < s@.len(),
            ws_first(s@) >= 0 ==> is_whitespace(s@[ws_first(s@)]),
            forall|j: int| 0 <= j < i ==> !is_whitespace(#[trigger] s@[j]),
        decreases s.len() - i,
    {
        if char_is_whitespace(s[i]) {
            proof {
                lemma_ws_first(s@);
            }
            return Some(i);
        }
        i = i + 1;
    }
    proof {
        lemma_ws_first(s@);
    }
    None
}

/// Position of the last white space in `s`, if any.
pub fn ws_last_exec(s: &Vec<char>) -> (r: Option<usize>)
    ensures
        match r {
            Some(i) => i as int == ws_last(s@),
            None => ws_last(s@) < 0,
        },
{
    let mut i: usize = s.len();
    assert(s@.subrange(0, s@.len() as int) == s@);
    while i > 0
        invariant
            i <= s.len(),
            ws_last(s@) == ws_last(s@.subrange(0, i as int)) || ws_last(s@.subrange(0, i as int)) >= 0,
            ws_last(s@) == ws_last(s@.subrange(0, i as int)),
        decreases i,
    {
        if char_is_whitespace(s[i - 1]) {
            assert(s@.subrange(0, i as int).last() == s@[i - 1]);
            return Some(i - 1);
        }
        assert(s@.subrange(0, i as int).drop_last() == s@.subrange(0, i - 1));
        i = i - 1;
    }
    None
}
} // verus!
