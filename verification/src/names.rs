//! Names derived from snake_case field names: HTML form names (`client_id` →
//! `ClientID`), enum variant names (`client_id` → `ClientId`) and labels
//! (`client_id` → `client id`).

use vstd::prelude::*;

use crate::text::{
    ascii_upper, chars_eq_ignore_ascii_case, chars_of, eq_ignore_ascii_case, push_range, push_str,
    split_all, split_all_exec,
};

verus! {

/// The upper-case mapping of `c`, as `char::to_uppercase` yields it.
pub uninterp spec fn char_uppercase(c: char) -> Seq<char>;

/// `char::to_uppercase`, collected. The mapping is Unicode's; of it the
/// contract states only the ASCII part, which the documentation shows:
/// `a`–`z` become `A`–`Z`, every other ASCII character maps to itself.
#[verifier::external_body]
fn uppercase_of(c: char) -> (r: String)
    ensures
        r@ == char_uppercase(c),
        'a' <= c <= 'z' ==> r@ == seq![ascii_upper(c)],
        (c as u32) < 128 && !('a' <= c <= 'z') ==> r@ == seq![c],
{
    c.to_uppercase().collect()
}

/// `c` upper-cased as `char::to_uppercase` does it: `a`–`z` to `A`–`Z` and
/// other ASCII characters kept, else Unicode's mapping.
pub open spec fn upper_first(c: char) -> Seq<char> {
    if (c as u32) < 128 {
        seq![ascii_upper(c)]
    } else {
        char_uppercase(c)
    }
}

/// `part` with its first character upper-cased.
pub open spec fn capitalized(part: Seq<char>) -> Seq<char> {
    if part.len() == 0 {
        seq![]
    } else {
        upper_first(part[0]) + part.drop_first()
    }
}

/// The HTML-name form of one part: `id` → `ID`, `url` → `URL` (any ASCII
/// case), otherwise capitalised.
pub open spec fn html_name_part(part: Seq<char>) -> Seq<char> {
    if eq_ignore_ascii_case(part, seq!['i', 'd']) {
        seq!['I', 'D']
    } else if eq_ignore_ascii_case(part, seq!['u', 'r', 'l']) {
        seq!['U', 'R', 'L']
    } else {
        capitalized(part)
    }
}

/// Concatenation of the HTML-name forms of `parts`.
pub open spec fn html_name_of_parts(parts: Seq<Seq<char>>) -> Seq<char>
    decreases parts.len(),
{
    if parts.len() == 0 {
        seq![]
    } else {
        html_name_of_parts(parts.drop_last()) + html_name_part(parts.last())
    }
}

/// Concatenation of the capitalised `parts`.
pub open spec fn variant_of_parts(parts: Seq<Seq<char>>) -> Seq<char>
    decreases parts.len(),
{
    if parts.len() == 0 {
        seq![]
    } else {
        variant_of_parts(parts.drop_last()) + capitalized(parts.last())
    }
}

/// Append `part` capitalised.
fn push_capitalized(out: &mut String, part: &Vec<char>)
    ensures
        final(out)@ == old(out)@ + capitalized(part@),
{
    if part.len() > 0 {
        let head = uppercase_of(part[0]);
        push_str(out, head.as_str());
        push_range(out, part, 1, part.len());
        assert(part@.subrange(1, part@.len() as int) == part@.drop_first());
    } else {
        assert(old(out)@ + Seq::<char>::empty() == old(out)@);
    }
}

/// `snake_case` → PascalCase for HTML form field names, with `ID` and `URL`
/// kept as acronyms; empty parts (doubled or edge underscores) vanish.
pub fn to_pascal_html_name(snake: &str) -> (r: String)
    ensures
        r@ == html_name_of_parts(split_all(snake@, '_')),
{
    let v = chars_of(snake);
    let parts = split_all_exec(&v, '_');
    let ghost ps = parts@.map_values(|p: Vec<char>| p@);
    let id: Vec<char> = vec!['i', 'd'];
    let url: Vec<char> = vec!['u', 'r', 'l'];
    assert(id@ == seq!['i', 'd']);
    assert(url@ == seq!['u', 'r', 'l']);
    let mut out = String::new();
    let mut i: usize = 0;
    while i < parts.len()
        invariant
            i <= parts.len(),
            ps == parts@.map_values(|p: Vec<char>| p@),
            id@ == seq!['i', 'd'],
            url@ == seq!['u', 'r', 'l'],
            out@ == html_name_of_parts(ps.take(i as int)),
        decreases parts.len() - i,
    {
        let part = &parts[i];
        if chars_eq_ignore_ascii_case(part, &id) {
            push_str(&mut out, "ID");
            proof {
                reveal_strlit("ID");
            }
        } else if chars_eq_ignore_ascii_case(part, &url) {
            push_str(&mut out, "URL");
            proof {
                reveal_strlit("URL");
            }
        } else {
            push_capitalized(&mut out, part);
        }
        assert(ps.take(i + 1).drop_last() == ps.take(i as int));
        assert(ps.take(i + 1).last() == part@);
        i = i + 1;
    }
    assert(ps.take(ps.len() as int) == ps);
    out
}

/// `snake_case` → PascalCase for Rust enum variants; empty parts vanish.
pub fn to_rust_variant_name(snake: &str) -> (r: String)
    ensures
        r@ == variant_of_parts(split_all(snake@, '_')),
{
    let v = chars_of(snake);
    let parts = split_all_exec(&v, '_');
    let ghost ps = parts@.map_values(|p: Vec<char>| p@);
    let mut out = String::new();
    let mut i: usize = 0;
    while i < parts.len()
        invariant
            i <= parts.len(),
            ps == parts@.map_values(|p: Vec<char>| p@),
            out@ == variant_of_parts(ps.take(i as int)),
        decreases parts.len() - i,
    {
        push_capitalized(&mut out, &parts[i]);
        assert(ps.take(i + 1).drop_last() == ps.take(i as int));
        assert(ps.take(i + 1).last() == parts@[i as int]@);
        i = i + 1;
    }
    assert(ps.take(ps.len() as int) == ps);
    out
}

/// `s` with every `_` replaced by a space.
pub open spec fn humanized(s: Seq<char>) -> Seq<char> {
    s.map_values(|c: char| if c == '_' { ' ' } else { c })
}

/// A display label for a field name: underscores become spaces.
pub fn humanize_label(name: &str) -> (r: String)
    ensures
        r@ == humanized(name@),
{
    let v = chars_of(name);
    let mut out = String::new();
    let mut i: usize = 0;
    while i < v.len()
        invariant
            i <= v.len(),
            v@ == name@,
            out@ == humanized(v@.take(i as int)),
        decreases v.len() - i,
    {
        let c = v[i];
        crate::text::push_char(&mut out, if c == '_' { ' ' } else { c });
        assert(humanized(v@.take(i + 1)) == humanized(v@.take(i as int)).push(if c == '_' { ' ' } else { c }));
        i = i + 1;
    }
    assert(v@.take(v@.len() as int) == v@);
    out
}

} // verus!
