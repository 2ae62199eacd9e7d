//! JSON text for the values that components embed in Alpine and HTMX attributes.
//!
//! String escaping is serde_json's; objects are built from already-rendered
//! values, keys in sorted order (serde_json's map order without `preserve_order`).

use vstd::prelude::*;

use crate::attrs::HtmlAttrs;
use crate::text::{decimal, push_char, push_str};

verus! {

/// The lower-case hexadecimal digit of `n < 16`.
pub open spec fn hex_digit(n: nat) -> char {
    if n < 10 {
        (('0' as u32) + n) as char
    } else {
        (('a' as u32) + n - 10) as char
    }
}

/// serde_json's escape of one character inside a string literal: `"` and `\`
/// behind a backslash, backspace, tab, line feed, form feed and carriage
/// return as `\b \t \n \f \r`, the other control characters below U+0020
/// as `\u00xx` (lower-case hex), every other character as it is.
pub open spec fn json_escape_char(c: char) -> Seq<char> {
    if c == '"' {
        seq!['\\', '"']
    } else if c == '\\' {
        seq!['\\', '\\']
    } else if c == '\u{8}' {
        seq!['\\', 'b']
    } else if c == '\t' {
        seq!['\\', 't']
    } else if c == '\n' {
        seq!['\\', 'n']
    } else if c == '\u{c}' {
        seq!['\\', 'f']
    } else if c == '\r' {
        seq!['\\', 'r']
    } else if (c as u32) < 0x20 {
        seq!['\\', 'u', '0', '0', hex_digit((c as u32) as nat / 16), hex_digit((c as u32) as nat % 16)]
    } else {
        seq![c]
    }
}

/// `s` with every character escaped as serde_json escapes it.
pub open spec fn json_escape(s: Seq<char>) -> Seq<char>
    decreases s.len(),
{
    if s.len() == 0 {
        seq![]
    } else {
        json_escape(s.drop_last()) + json_escape_char(s.last())
    }
}

/// The JSON string literal that serde_json writes for `s`: the escaped text in
/// double quotes.
pub open spec fn json_string_of(s: Seq<char>) -> Seq<char> {
    seq!['"'] + json_escape(s) + seq!['"']
}

/// serde_json's error type.
#[verifier::external_type_specification]
#[verifier::external_body]
pub struct ExJsonError(serde_json::Error);

/// `serde_json::to_string` on a string slice: the JSON string literal of `s`,
/// escaped as `format_escaped_str` escapes it. It is always `Ok`: a `str` is serialised by writing its escaped text into a
/// `Vec<u8>`, and writing into a `Vec<u8>` cannot fail.
#[verifier::external_body]
fn serde_json_to_string_str(s: &str) -> (r: Result<String, serde_json::Error>)
    ensures
        r is Ok,
        r matches Ok(v) ==> v@ == json_string_of(s@),
{
    serde_json::to_string(s)
}

/// The JSON string literal of `value`.
pub fn json_str(value: &str) -> (r: String)
    ensures
        r@ == json_string_of(value@),
{
    match serde_json_to_string_str(value) {
        Ok(v) => v,
        Err(_) => String::new(),
    }
}

/// What follows an optional leading `+`.
pub open spec fn unsigned_digits(s: Seq<char>) -> Seq<char> {
    if s.len() > 0 && s[0] == '+' { s.drop_first() } else { s }
}

/// Every character is an ASCII decimal digit.
pub open spec fn all_digits(d: Seq<char>) -> bool {
    forall|i: int| 0 <= i < d.len() ==> '0' <= #[trigger] d[i] && d[i] <= '9'
}

/// Decimal digits, at least one, optionally after a leading `+` (`u64::from_str` syntax).
pub open spec fn is_u64_syntax(s: Seq<char>) -> bool {
    unsigned_digits(s).len() > 0 && all_digits(unsigned_digits(s))
}

/// Value of a string of decimal digits.
pub open spec fn digits_value(d: Seq<char>) -> nat
    decreases d.len(),
{
    if d.len() == 0 {
        0
    } else {
        digits_value(d.drop_last()) * 10 + ((d.last() as u32) - ('0' as u32)) as nat
    }
}

/// `u64::from_str`: the value when `s` is decimal digits (optionally `+`-prefixed)
/// that fit in 64 bits.
pub open spec fn parse_u64_spec(s: Seq<char>) -> Option<u64> {
    let d = unsigned_digits(s);
    if is_u64_syntax(s) && digits_value(d) <= u64::MAX {
        Some(digits_value(d) as u64)
    } else {
        None
    }
}

/// Parse a decimal `u64` the way `str::parse::<u64>` does.
pub fn parse_u64(s: &str) -> (r: Option<u64>)
    ensures
        r == parse_u64_spec(s@),
{
    let v = crate::text::chars_of(s);
    let start: usize = if v.len() > 0 && v[0] == '+' { 1 } else { 0 };
    let ghost d = unsigned_digits(s@);
    assert(d == v@.subrange(start as int, v@.len() as int));
    if start == v.len() {
        return None;
    }
    let mut acc: u64 = 0;
    let mut i = start;
    let mut overflow = false;
    while i < v.len()
        invariant
            start <= i <= v.len(),
            v@ == s@,
            d == unsigned_digits(s@),
            d == v@.subrange(start as int, v@.len() as int),
            forall|j: int| start <= j < i ==> '0' <= #[trigger] v@[j] && v@[j] <= '9',
            !overflow ==> acc as nat == digits_value(v@.subrange(start as int, i as int)),
            overflow ==> digits_value(v@.subrange(start as int, i as int)) > u64::MAX,
        decreases v.len() - i,
    {
        let c = v[i];
        if !('0' <= c && c <= '9') {
            assert(d[i - start] == c);
            assert(0 <= i - start < d.len());
            assert(!('0' <= d[i - start] && d[i - start] <= '9'));
            assert(!all_digits(d));
            return None;
        }
        let dv = (c as u32) - ('0' as u32);
        let ghost prefix = v@.subrange(start as int, i + 1);
        assert(prefix.drop_last() == v@.subrange(start as int, i as int));
        assert(prefix.last() == c);
        if !overflow {
            if acc > (u64::MAX - dv as u64) / 10 {
                overflow = true;
                assert(digits_value(prefix) > u64::MAX) by (nonlinear_arith)
                    requires
                        digits_value(prefix) == (acc as nat) * 10 + dv as nat,
                        acc > (u64::MAX - dv as u64) / 10,
                        dv <= 9,
                ;
            } else {
                assert(acc * 10 + dv <= u64::MAX) by (nonlinear_arith)
                    requires
                        acc <= (u64::MAX - dv as u64) / 10,
                        dv <= 9,
                ;
                acc = acc * 10 + dv as u64;
            }
        } else {
            assert(digits_value(prefix) > u64::MAX) by (nonlinear_arith)
                requires
                    digits_value(prefix) == digits_value(prefix.drop_last()) * 10 + dv as nat,
                    digits_value(prefix.drop_last()) > u64::MAX,
            ;
        }
        i = i + 1;
    }
    if overflow {
        None
    } else {
        Some(acc)
    }
}

/// `{"k":v,…}` for entries whose values are already JSON text.
pub open spec fn json_object_spec(es: Seq<(Seq<char>, Seq<char>)>) -> Seq<char> {
    seq!['{'] + json_members(es) + seq!['}']
}

/// `"k":v` members joined by commas.
pub open spec fn json_members(es: Seq<(Seq<char>, Seq<char>)>) -> Seq<char>
    decreases es.len(),
{
    if es.len() == 0 {
        seq![]
    } else if es.len() == 1 {
        json_string_of(es[0].0) + seq![':'] + es[0].1
    } else {
        json_members(es.drop_last()) + seq![','] + json_string_of(es.last().0) + seq![':'] + es.last().1
    }
}

/// Render sorted entries (values already JSON) as a JSON object.
pub fn json_object(members: &HtmlAttrs) -> (r: String)
    ensures
        r@ == json_object_spec(members@),
{
    let mut out = String::new();
    push_char(&mut out, '{');
    let mut i: usize = 0;
    while i < members.len()
        invariant
            i <= members@.len(),
            out@ == seq!['{'] + json_members(members@.take(i as int)),
        decreases members@.len() - i,
    {
        let (k, v) = members.entry(i);
        let ghost before = out@;
        if i > 0 {
            push_char(&mut out, ',');
        }
        let ks = json_str(k);
        push_str(&mut out, ks.as_str());
        push_char(&mut out, ':');
        push_str(&mut out, v);
        proof {
            let t = members@.take(i + 1);
            assert(t.drop_last() == members@.take(i as int));
            assert(t.last() == members@[i as int]);
            if i == 0 {
                assert(members@.take(0) =~= Seq::<(Seq<char>, Seq<char>)>::empty());
                assert(before == seq!['{']);
            }
        }
        i = i + 1;
    }
    push_char(&mut out, '}');
    assert(members@.take(members@.len() as int) == members@);
    out
}

/// The JSON text of a `u64` (its decimal digits).
pub open spec fn json_u64(n: u64) -> Seq<char> {
    decimal(n as nat)
}

} // verus!
