//! Lengths: millimetre values stored as `Decimal(15, 6)`, read and shown in a
//! choice of units. Values are carried as whole nanometres, so every unit of
//! the selector converts exactly into the stored millimetres.

use vstd::prelude::*;

use crate::attrs::{render_entries, HtmlAttrs};
use crate::html::{escape_html, push_escaped_html};
use crate::json::{all_digits, digits_value, json_str, json_string_of};
use crate::text::{
    decimal, digit_char, escape_attr_seq, find, find_char, has_char, push_char, push_decimal, push_escaped_attr,
    push_str, sub_vec, trim, trim_chars,
    trim_end_char, trim_end_char_exec, trim_str,
};

verus! {

/// A unit of the length selector.
#[derive(Debug, Clone, Copy, PartialEq, Eq, Structural)]
pub enum LengthUnit {
    Millimetre,
    Centimetre,
    Metre,
    Kilometre,
    Inch,
    Foot,
}

impl LengthUnit {
    /// Nanometres in one unit.
    pub open spec fn nm_spec(self) -> nat {
        match self {
            LengthUnit::Millimetre => 1_000_000,
            LengthUnit::Centimetre => 10_000_000,
            LengthUnit::Metre => 1_000_000_000,
            LengthUnit::Kilometre => 1_000_000_000_000,
            LengthUnit::Inch => 25_400_000,
            LengthUnit::Foot => 304_800_000,
        }
    }

    /// The unit's symbol.
    pub open spec fn name_spec(self) -> Seq<char> {
        match self {
            LengthUnit::Millimetre => "mm"@,
            LengthUnit::Centimetre => "cm"@,
            LengthUnit::Metre => "m"@,
            LengthUnit::Kilometre => "km"@,
            LengthUnit::Inch => "in"@,
            LengthUnit::Foot => "ft"@,
        }
    }

    /// The unit's symbol (`mm`, `cm`, `m`, `km`, `in`, `ft`).
    pub fn as_str(&self) -> (r: &'static str)
        ensures
            r@ == self.name_spec(),
    {
        match self {
            LengthUnit::Millimetre => "mm",
            LengthUnit::Centimetre => "cm",
            LengthUnit::Metre => "m",
            LengthUnit::Kilometre => "km",
            LengthUnit::Inch => "in",
            LengthUnit::Foot => "ft",
        }
    }

    /// Nanometres in one unit.
    pub fn nm_per_unit(&self) -> (r: u64)
        ensures
            r == self.nm_spec(),
    {
        match self {
            LengthUnit::Millimetre => 1_000_000,
            LengthUnit::Centimetre => 10_000_000,
            LengthUnit::Metre => 1_000_000_000,
            LengthUnit::Kilometre => 1_000_000_000_000,
            LengthUnit::Inch => 25_400_000,
            LengthUnit::Foot => 304_800_000,
        }
    }
}

/// The units in selector order.
pub open spec fn all_units() -> Seq<LengthUnit> {
    seq![
        LengthUnit::Millimetre,
        LengthUnit::Centimetre,
        LengthUnit::Metre,
        LengthUnit::Kilometre,
        LengthUnit::Inch,
        LengthUnit::Foot,
    ]
}

/// The units in selector order.
pub fn length_units() -> (r: Vec<LengthUnit>)
    ensures
        r@ == all_units(),
{
    let r = vec![
        LengthUnit::Millimetre,
        LengthUnit::Centimetre,
        LengthUnit::Metre,
        LengthUnit::Kilometre,
        LengthUnit::Inch,
        LengthUnit::Foot,
    ];
    assert(r@ =~= all_units());
    r
}

/// The unit named `s`, if any.
pub open spec fn unit_named(s: Seq<char>) -> Option<LengthUnit> {
    if s == "mm"@ {
        Some(LengthUnit::Millimetre)
    } else if s == "cm"@ {
        Some(LengthUnit::Centimetre)
    } else if s == "m"@ {
        Some(LengthUnit::Metre)
    } else if s == "km"@ {
        Some(LengthUnit::Kilometre)
    } else if s == "in"@ {
        Some(LengthUnit::Inch)
    } else if s == "ft"@ {
        Some(LengthUnit::Foot)
    } else {
        None
    }
}

/// The unit named `s` (its exact symbol), if any.
pub fn parse_length_unit(s: &str) -> (r: Option<LengthUnit>)
    ensures
        r == unit_named(s@),
{
    if crate::text::str_eq(s, "mm") {
        Some(LengthUnit::Millimetre)
    } else if crate::text::str_eq(s, "cm") {
        Some(LengthUnit::Centimetre)
    } else if crate::text::str_eq(s, "m") {
        Some(LengthUnit::Metre)
    } else if crate::text::str_eq(s, "km") {
        Some(LengthUnit::Kilometre)
    } else if crate::text::str_eq(s, "in") {
        Some(LengthUnit::Inch)
    } else if crate::text::str_eq(s, "ft") {
        Some(LengthUnit::Foot)
    } else {
        None
    }
}

/// The largest magnitude a stored length may have, in nanometres
/// (`Decimal(15, 6)` millimetres).
pub const MAX_NM: u64 = 999_999_999_999_999;

/// Fraction digits read past the decimal point; the rest are ignored.
pub const MAX_FRACTION_DIGITS: usize = 18;

/// What a length text reads as.
#[derive(Debug, Clone, Copy, PartialEq, Eq, Structural)]
pub enum LengthParse {
    /// Nothing but white space and commas.
    Empty,
    /// A sign or a point without digits yet.
    Incomplete,
    /// Not a decimal number.
    Invalid,
    /// A number past [`MAX_NM`].
    TooLarge,
    /// The length in nanometres.
    Nm(i64),
}

/// `10^k`.
pub open spec fn pow10(k: nat) -> nat
    decreases k,
{
    if k == 0 {
        1
    } else {
        10 * pow10((k - 1) as nat)
    }
}

/// `s` without its commas (thousands separators).
pub open spec fn remove_commas(s: Seq<char>) -> Seq<char>
    decreases s.len(),
{
    if s.len() == 0 {
        s
    } else {
        remove_commas(s.drop_last()) + (if s.last() == ',' { Seq::<char>::empty() } else { seq![s.last()] })
    }
}

/// The integer digits of an unsigned number text: before the point, `0` when none.
pub open spec fn int_part(b: Seq<char>) -> Seq<char> {
    let p = find_char(b, '.');
    let raw = if p < 0 { b } else { b.take(p) };
    if raw.len() == 0 { seq!['0'] } else { raw }
}

/// The fraction digits of an unsigned number text: after the first point.
pub open spec fn frac_part(b: Seq<char>) -> Seq<char> {
    let p = find_char(b, '.');
    if p < 0 { seq![] } else { b.skip(p + 1) }
}

/// The fraction digits that count: at most [`MAX_FRACTION_DIGITS`].
pub open spec fn frac_used(f: Seq<char>) -> Seq<char> {
    if f.len() > 18 { f.take(18) } else { f }
}

/// `num / den`, rounded half up.
pub open spec fn round_div(num: nat, den: nat) -> nat {
    num / den + (if (num % den) * 2 >= den { 1nat } else { 0nat })
}

/// The magnitude in nanometres of the digits `int_s`.`f` in a unit of `u` nanometres.
pub open spec fn magnitude_nm(int_s: Seq<char>, f: Seq<char>, u: nat) -> nat {
    round_div((digits_value(int_s) * pow10(f.len()) + digits_value(f)) * u, pow10(f.len()))
}

/// What an unsigned number text (after its sign) reads as.
pub open spec fn parse_body(b: Seq<char>, neg: bool, u: nat) -> LengthParse {
    if b.len() == 0 || b == seq!['.'] {
        LengthParse::Incomplete
    } else if has_char(frac_part(b), '.') || !all_digits(int_part(b)) || !all_digits(frac_part(b)) {
        LengthParse::Invalid
    } else {
        let nm = magnitude_nm(int_part(b), frac_used(frac_part(b)), u);
        if nm > MAX_NM {
            LengthParse::TooLarge
        } else {
            LengthParse::Nm((if neg { -nm } else { nm as int }) as i64)
        }
    }
}

/// What the text `s` reads as in a unit of `u` nanometres: trimmed, commas
/// dropped, an optional sign, then decimal digits with at most one point,
/// rounded half up to whole nanometres.
pub open spec fn parse_length_spec(s: Seq<char>, u: nat) -> LengthParse {
    let t = remove_commas(trim(s));
    if t.len() == 0 {
        LengthParse::Empty
    } else if t[0] == '-' || t[0] == '+' {
        parse_body(trim(t.drop_first()), t[0] == '-', u)
    } else {
        parse_body(t, false, u)
    }
}

proof fn lemma_pow10_pos(k: nat)
    ensures
        pow10(k) >= 1,
    decreases k,
{
    if k > 0 {
        lemma_pow10_pos((k - 1) as nat);
    }
}

proof fn lemma_pow10_18(k: nat)
    requires
        k <= 18,
    ensures
        1 <= pow10(k) <= 1_000_000_000_000_000_000,
    decreases 18 - k,
{
    lemma_pow10_pos(k);
    if k < 18 {
        lemma_pow10_18(k + 1);
        assert(pow10(k + 1) == 10 * pow10(k));
    } else {
        reveal_with_fuel(pow10, 19);
        assert(pow10(18) == 1_000_000_000_000_000_000);
    }
}

/// The value of `s.take(i)` is at most that of `s`.
proof fn lemma_digits_prefix_le(s: Seq<char>, i: int)
    requires
        0 <= i <= s.len(),
    ensures
        digits_value(s.take(i)) <= digits_value(s),
    decreases s.len(),
{
    if i < s.len() {
        assert(s.drop_last().take(i) == s.take(i));
        lemma_digits_prefix_le(s.drop_last(), i);
    } else {
        assert(s.take(i) == s);
    }
}

/// Digits of `s` are worth less than `10^len`.
proof fn lemma_digits_bound(s: Seq<char>)
    requires
        all_digits(s),
    ensures
        digits_value(s) < pow10(s.len()),
    decreases s.len(),
{
    if s.len() > 0 {
        assert(all_digits(s.drop_last()));
        lemma_digits_bound(s.drop_last());
        assert('0' <= s.last() <= '9');
    }
}

fn remove_commas_exec(v: &Vec<char>) -> (r: Vec<char>)
    ensures
        r@ == remove_commas(v@),
{
    let mut out: Vec<char> = Vec::new();
    let mut i: usize = 0;
    while i < v.len()
        invariant
            i <= v.len(),
            out@ == remove_commas(v@.take(i as int)),
        decreases v.len() - i,
    {
        assert(v@.take(i + 1).drop_last() == v@.take(i as int));
        if v[i] != ',' {
            out.push(v[i]);
        }
        proof {
            assert(out@ =~= remove_commas(v@.take(i + 1)));
        }
        i = i + 1;
    }
    assert(v@.take(v.len() as int) == v@);
    out
}

fn all_digits_exec(v: &Vec<char>) -> (r: bool)
    ensures
        r == all_digits(v@),
{
    let mut i: usize = 0;
    while i < v.len()
        invariant
            i <= v.len(),
            forall|j: int| 0 <= j < i ==> '0' <= #[trigger] v@[j] && v@[j] <= '9',
        decreases v.len() - i,
    {
        if !('0' <= v[i] && v[i] <= '9') {
            return false;
        }
        i = i + 1;
    }
    true
}

/// The value of the digits `v`, when it is at most `cap`.
fn digits_value_capped(v: &Vec<char>, cap: u64) -> (r: Option<u64>)
    requires
        all_digits(v@),
        cap <= 1_000_000_000_000_000_000,
    ensures
        match r {
            Some(x) => x == digits_value(v@) && x <= cap,
            None => digits_value(v@) > cap,
        },
{
    let mut val: u64 = 0;
    let mut i: usize = 0;
    while i < v.len()
        invariant
            i <= v.len(),
            all_digits(v@),
            cap <= 1_000_000_000_000_000_000,
            val == digits_value(v@.take(i as int)),
            val <= cap,
        decreases v.len() - i,
    {
        assert(v@.take(i + 1).drop_last() == v@.take(i as int));
        assert('0' <= v@[i as int] <= '9');
        let d = (v[i] as u32 - '0' as u32) as u64;
        let next: u128 = (val as u128) * 10 + (d as u128);
        if next > cap as u128 {
            proof {
                lemma_digits_prefix_le(v@, i + 1);
            }
            return None;
        }
        val = next as u64;
        i = i + 1;
    }
    assert(v@.take(v.len() as int) == v@);
    Some(val)
}

fn pow10_exec(k: usize) -> (r: u64)
    requires
        k <= 18,
    ensures
        r == pow10(k as nat),
{
    let mut p: u64 = 1;
    let mut i: usize = 0;
    while i < k
        invariant
            i <= k <= 18,
            p == pow10(i as nat),
        decreases k - i,
    {
        proof {
            lemma_pow10_18(i as nat);
        }
        p = p * 10;
        i = i + 1;
    }
    p
}

/// The exact arithmetic of [`magnitude_nm`] on bounded values.
proof fn lemma_magnitude_parts(iv: nat, fv: nat, den: nat, u: nat)
    requires
        den >= 1,
    ensures
        (iv * den + fv) * u == iv * u * den + fv * u,
        (iv * den + fv) * u / den >= iv * u,
{
    assert((iv * den + fv) * u == iv * u * den + fv * u) by (nonlinear_arith);
    assert(iv * u * den + fv * u >= (iv * u) * den) by (nonlinear_arith);
    vstd::arithmetic::div_mod::lemma_div_is_ordered((iv * u) * den as int, (iv * den + fv) * u as int, den as int);
    vstd::arithmetic::div_mod::lemma_div_by_multiple((iv * u) as int, den as int);
}

/// What an unsigned number text reads as (see [`parse_body`]).
fn parse_body_exec(b: &Vec<char>, neg: bool, u: u64) -> (r: LengthParse)
    requires
        1 <= u <= 1_000_000_000_000,
    ensures
        r == parse_body(b@, neg, u as nat),
{
    if b.len() == 0 || (b.len() == 1 && b[0] == '.') {
        proof {
            if b.len() == 1 {
                assert(b@ =~= seq!['.']);
            }
        }
        return LengthParse::Incomplete;
    }
    assert(b@ != seq!['.']) by {
        if b@ == seq!['.'] {
            assert(b@.len() == 1 && b@[0] == '.');
        }
    }
    proof {
        crate::text::lemma_find_char(b@, '.');
    }
    let (int_raw, frac) = match find(b, '.') {
        Some(p) => (sub_vec(b, 0, p), sub_vec(b, p + 1, b.len())),
        None => (sub_vec(b, 0, b.len()), Vec::new()),
    };
    assert(b@.subrange(0, b@.len() as int) == b@);
    assert(frac@ == frac_part(b@));
    if crate::text::contains_char(&frac, '.') {
        return LengthParse::Invalid;
    }
    let int_s = if int_raw.len() == 0 { vec!['0'] } else { int_raw };
    assert(int_s@ == int_part(b@));
    if !all_digits_exec(&int_s) || !all_digits_exec(&frac) {
        return LengthParse::Invalid;
    }
    let f = if frac.len() > 18 { sub_vec(&frac, 0, 18) } else { frac };
    assert(f@ == frac_used(frac_part(b@)));
    assert(all_digits(f@));
    let ghost fl = f@.len();
    proof {
        lemma_digits_bound(f@);
        lemma_pow10_18(fl as nat);
    }
    let den = pow10_exec(f.len());
    let fv = match digits_value_capped(&f, 999_999_999_999_999_999) {
        Some(x) => x,
        None => {
            return LengthParse::Invalid;
        },
    };
    let cap = MAX_NM / u;
    let iv = match digits_value_capped(&int_s, cap) {
        Some(x) => x,
        None => {
            proof {
                let ivs = digits_value(int_s@);
                lemma_magnitude_parts(ivs, fv as nat, den as nat, u as nat);
                assert(ivs * u >= (cap + 1) * u) by (nonlinear_arith)
                    requires
                        ivs >= cap + 1,
                ;
                assert((cap + 1) * u > MAX_NM) by (nonlinear_arith)
                    requires
                        cap == MAX_NM / u,
                        u >= 1,
                ;
            }
            return LengthParse::TooLarge;
        },
    };
    proof {
        lemma_magnitude_parts(iv as nat, fv as nat, den as nat, u as nat);
        assert(iv * u <= MAX_NM) by (nonlinear_arith)
            requires
                iv <= MAX_NM / u,
                u >= 1,
        ;
        assert(iv * u * den <= 1_000_000_000_000_000 * 1_000_000_000_000_000_000) by (nonlinear_arith)
            requires
                iv * u <= MAX_NM,
                den <= 1_000_000_000_000_000_000,
        ;
        assert(fv * u <= 1_000_000_000_000_000_000 * 1_000_000_000_000) by (nonlinear_arith)
            requires
                fv <= 1_000_000_000_000_000_000,
                u <= 1_000_000_000_000,
        ;
    }
    let a: u128 = (iv as u128) * (u as u128);
    let bpart: u128 = a * (den as u128);
    let c: u128 = (fv as u128) * (u as u128);
    let numer: u128 = bpart + c;
    let q: u128 = numer / (den as u128);
    let rem: u128 = numer % (den as u128);
    let nm: u128 = if rem * 2 >= den as u128 { q + 1 } else { q };
    assert(nm == magnitude_nm(int_s@, f@, u as nat));
    if nm > MAX_NM as u128 {
        return LengthParse::TooLarge;
    }
    let m = nm as i64;
    if neg {
        LengthParse::Nm(-m)
    } else {
        LengthParse::Nm(m)
    }
}

/// What the text `s` reads as in `unit`.
pub fn parse_length(s: &str, unit: LengthUnit) -> (r: LengthParse)
    ensures
        r == parse_length_spec(s@, unit.nm_spec()),
{
    let t0 = trim_str(s);
    let t = remove_commas_exec(&t0);
    if t.len() == 0 {
        return LengthParse::Empty;
    }
    let u = unit.nm_per_unit();
    if t[0] == '-' || t[0] == '+' {
        let rest = sub_vec(&t, 1, t.len());
        assert(rest@ == t@.drop_first());
        let body = trim_chars(&rest);
        parse_body_exec(&body, t[0] == '-', u)
    } else {
        parse_body_exec(&t, false, u)
    }
}

/// The first `n` decimal digits of the fraction `rem / u`, stopping early when
/// it runs out.
pub open spec fn frac_digits(rem: nat, u: nat, n: nat) -> Seq<char>
    decreases n,
{
    if n == 0 || rem == 0 || u == 0 {
        seq![]
    } else {
        seq![digit_char((rem * 10) / u)] + frac_digits((rem * 10) % u, u, (n - 1) as nat)
    }
}

/// `nm` nanometres written in a unit of `u` nanometres: the whole units, then
/// when there is a remainder a point and up to 18 fraction digits without
/// trailing zeros; a `-` for negative values.
pub open spec fn format_nm_spec(nm: int, u: nat) -> Seq<char> {
    let a = if nm < 0 { -nm } else { nm };
    let sign = if nm < 0 { seq!['-'] } else { Seq::<char>::empty() };
    let whole = (a / (u as int)) as nat;
    let rem = (a % (u as int)) as nat;
    if rem == 0 {
        sign + decimal(whole)
    } else {
        sign + decimal(whole) + seq!['.'] + trim_end_char(frac_digits(rem, u, 18), '0')
    }
}

fn fraction_digits(rem0: u64, u: u64) -> (r: Vec<char>)
    requires
        1 <= u <= 1_000_000_000_000,
        rem0 < u,
    ensures
        r@ == frac_digits(rem0 as nat, u as nat, 18),
{
    let mut out: Vec<char> = Vec::new();
    let mut rem = rem0;
    let mut i: usize = 0;
    while i < 18 && rem != 0
        invariant
            i <= 18,
            1 <= u <= 1_000_000_000_000,
            rem < u,
            out@ + frac_digits(rem as nat, u as nat, (18 - i) as nat) == frac_digits(rem0 as nat, u as nat, 18),
        decreases 18 - i,
    {
        let r10 = rem * 10;
        let d = r10 / u;
        assert(d < 10) by (nonlinear_arith)
            requires
                r10 == rem * 10,
                rem < u,
                d == r10 / u,
                u >= 1,
        ;
        let c = crate::text::char_from_u32_ascii(48 + d as u32);
        proof {
            let ghost tail = frac_digits((r10 % u) as nat, u as nat, (18 - i - 1) as nat);
            assert(frac_digits(rem as nat, u as nat, (18 - i) as nat) == seq![digit_char(d as nat)] + tail);
            assert(c == digit_char(d as nat));
            assert(out@.push(c) + tail == out@ + (seq![c] + tail));
        }
        out.push(c);
        rem = r10 % u;
        i = i + 1;
    }
    proof {
        assert(frac_digits(rem as nat, u as nat, (18 - i) as nat) == Seq::<char>::empty());
        assert(out@ + Seq::<char>::empty() == out@);
    }
    out
}

/// Write `nm` nanometres in `unit`.
pub fn format_nm(nm: i64, unit: LengthUnit) -> (r: String)
    ensures
        r@ == format_nm_spec(nm as int, unit.nm_spec()),
{
    let u = unit.nm_per_unit();
    let a: u64 = if nm < 0 {
        if nm == i64::MIN {
            9_223_372_036_854_775_808u64
        } else {
            (-nm) as u64
        }
    } else {
        nm as u64
    };
    let whole = a / u;
    let rem = a % u;
    let mut out = String::new();
    if nm < 0 {
        push_char(&mut out, '-');
    }
    push_decimal(&mut out, whole);
    if rem == 0 {
        proof {
            if nm >= 0 {
                assert(Seq::<char>::empty() + decimal(whole as nat) == decimal(whole as nat));
            }
        }
        return out;
    }
    let digits = fraction_digits(rem, u);
    let trimmed = trim_end_char_exec(&digits, '0');
    push_char(&mut out, '.');
    let ghost before = out@;
    let mut i: usize = 0;
    while i < trimmed.len()
        invariant
            i <= trimmed.len(),
            out@ == before + trimmed@.take(i as int),
        decreases trimmed.len() - i,
    {
        push_char(&mut out, trimmed[i]);
        assert(trimmed@.take(i + 1) == trimmed@.take(i as int).push(trimmed@[i as int]));
        i = i + 1;
    }
    proof {
        assert(trimmed@.take(trimmed.len() as int) == trimmed@);
        if nm >= 0 {
            assert(Seq::<char>::empty() + decimal(whole as nat) == decimal(whole as nat));
        }
    }
    out
}

/// Why a length text is refused.
#[derive(Debug, Clone, Copy, PartialEq, Eq, Structural)]
pub enum LengthError {
    /// Not a complete decimal number.
    Invalid,
    /// Past the largest storable length.
    TooLarge,
}

/// Nanometres in a millimetre.
pub open spec fn mm_nm() -> nat {
    LengthUnit::Millimetre.nm_spec()
}

/// The millimetre value of a text, in nanometres.
pub open spec fn parse_mm_spec(s: Seq<char>) -> Result<i64, LengthError> {
    match parse_length_spec(s, mm_nm()) {
        LengthParse::Nm(n) => Ok(n),
        LengthParse::TooLarge => Err(LengthError::TooLarge),
        _ => Err(LengthError::Invalid),
    }
}

/// Read a millimetre text as nanometres.
pub fn parse_mm(s: &str) -> (r: Result<i64, LengthError>)
    ensures
        r == parse_mm_spec(s@),
{
    match parse_length(s, LengthUnit::Millimetre) {
        LengthParse::Nm(n) => Ok(n),
        LengthParse::TooLarge => Err(LengthError::TooLarge),
        _ => Err(LengthError::Invalid),
    }
}

/// The canonical millimetre text of a value: empty for an empty text.
pub open spec fn normalize_mm_spec(s: Seq<char>) -> Result<Seq<char>, LengthError> {
    match parse_length_spec(s, mm_nm()) {
        LengthParse::Empty => Ok(Seq::<char>::empty()),
        LengthParse::Nm(n) => Ok(format_nm_spec(n as int, mm_nm())),
        LengthParse::TooLarge => Err(LengthError::TooLarge),
        _ => Err(LengthError::Invalid),
    }
}

/// Canonicalise a millimetre text (what is stored).
pub fn normalize_mm(s: &str) -> (r: Result<String, LengthError>)
    ensures
        match r {
            Ok(t) => normalize_mm_spec(s@) == Ok::<Seq<char>, LengthError>(t@),
            Err(e) => normalize_mm_spec(s@) == Err::<Seq<char>, LengthError>(e),
        },
{
    match parse_length(s, LengthUnit::Millimetre) {
        LengthParse::Empty => {
            proof {
                reveal_strlit("");
            }
            Ok(String::new())
        },
        LengthParse::Nm(n) => Ok(format_nm(n, LengthUnit::Millimetre)),
        LengthParse::TooLarge => Err(LengthError::TooLarge),
        _ => Err(LengthError::Invalid),
    }
}

/// The client state of a length input, up to its millimetre value.
pub const LENGTH_JS_OPEN: &'static str = "{\n            mm: ";

/// Between the millimetre value and the displayed value.
pub const LENGTH_JS_AFTER_MM: &'static str = ",\n            display: ";

/// Between the displayed value and the unit.
pub const LENGTH_JS_AFTER_DISPLAY: &'static str = ",\n            unit: ";

/// Between the unit and the unit table.
pub const LENGTH_JS_AFTER_UNIT: &'static str = ",\n            error: '',\n            units: ";

/// After the unit table: the parsing, formatting and syncing methods.
pub const LENGTH_JS_CLOSE: &'static str = ",\n            maxNm: 999999999999999n,\n            bindForm() {\n                const form = this.$el.closest('form');\n                if (!form) {\n                    return;\n                }\n                form.addEventListener('submit', (event) => {\n                    if (!this.syncMm(true)) {\n                        event.preventDefault();\n                        event.stopImmediatePropagation();\n                    }\n                });\n            },\n            parseToNm(str, unitNm) {\n                str = String(str || '').trim().replace(/,/g, '');\n                if (!str) {\n                    return { empty: true };\n                }\n                let neg = false;\n                if (str[0] === '-' || str[0] === '+') {\n                    neg = str[0] === '-';\n                    str = str.slice(1).trim();\n                }\n                if (!str || str === '.') {\n                    return { incomplete: true };\n                }\n                const parts = str.split('.');\n                if (parts.length > 2) {\n                    return { invalid: true };\n                }\n                const intRaw = parts[0] || '0';\n                let frac = parts[1] || '';\n                if (!/^\\d+$/.test(intRaw) || (frac && !/^\\d+$/.test(frac))) {\n                    return { invalid: true };\n                }\n                if (frac.length > 18) {\n                    frac = frac.slice(0, 18);\n                }\n                try {\n                    const fracDen = 10n ** BigInt(frac.length);\n                    const intN = BigInt(intRaw.replace(/^0+(?=\\d)/, '') || '0');\n                    const fracN = frac ? BigInt(frac) : 0n;\n                    const numer = (intN * fracDen + fracN) * BigInt(unitNm);\n                    let nm = numer / fracDen;\n                    if ((numer % fracDen) * 2n >= fracDen) {\n                        nm += 1n;\n                    }\n                    if (neg) {\n                        nm = -nm;\n                    }\n                    return { nm };\n                } catch (e) {\n                    return { invalid: true };\n                }\n            },\n            formatUnit(nm, unitNm) {\n                const neg = nm < 0n;\n                if (neg) {\n                    nm = -nm;\n                }\n                const denom = BigInt(unitNm);\n                const whole = nm / denom;\n                let rem = nm % denom;\n                const sign = neg ? '-' : '';\n                if (rem === 0n) {\n                    return sign + String(whole);\n                }\n                let frac = '';\n                for (let i = 0; i < 18 && rem !== 0n; i++) {\n                    rem *= 10n;\n                    frac += String(rem / denom);\n                    rem %= denom;\n                }\n                frac = frac.replace(/0+$/, '');\n                return sign + String(whole) + '.' + frac;\n            },\n            formatMm(nm) {\n                return this.formatUnit(nm, this.units.mm);\n            },\n            syncMm(fromSubmit) {\n                this.error = '';\n                const parsed = this.parseToNm(this.display, this.units[this.unit]);\n                if (parsed.empty) {\n                    this.mm = '';\n                    return true;\n                }\n                if (parsed.incomplete) {\n                    if (fromSubmit) {\n                        this.error = 'Enter a valid length';\n                        return false;\n                    }\n                    return true;\n                }\n                if (parsed.invalid || typeof parsed.nm !== 'bigint') {\n                    this.error = 'Enter a valid length';\n                    return false;\n                }\n                const abs = parsed.nm < 0n ? -parsed.nm : parsed.nm;\n                if (abs > this.maxNm) {\n                    this.error = 'Length is too large';\n                    return false;\n                }\n                this.mm = this.formatMm(parsed.nm);\n                return true;\n            },\n            mmToDisplay() {\n                this.error = '';\n                const parsed = this.parseToNm(this.mm, this.units.mm);\n                if (parsed.empty) {\n                    this.display = '';\n                    return;\n                }\n                if (typeof parsed.nm !== 'bigint') {\n                    return;\n                }\n                this.display = this.formatUnit(parsed.nm, this.units[this.unit]);\n            }\n        }";

/// `sym:nm` for one unit of the client's unit table.
pub open spec fn unit_entry(u: LengthUnit) -> Seq<char> {
    u.name_spec() + seq![':'] + decimal(u.nm_spec())
}

/// The entries of `us`, comma separated.
pub open spec fn unit_entries(us: Seq<LengthUnit>) -> Seq<char>
    decreases us.len(),
{
    if us.len() == 0 {
        seq![]
    } else if us.len() == 1 {
        unit_entry(us[0])
    } else {
        unit_entries(us.drop_last()) + seq![','] + unit_entry(us.last())
    }
}

/// The client's unit table: `{mm:1000000,...}`.
pub open spec fn units_js_spec() -> Seq<char> {
    seq!['{'] + unit_entries(all_units()) + seq!['}']
}

fn units_js() -> (r: String)
    ensures
        r@ == units_js_spec(),
{
    let units = length_units();
    let mut out = String::new();
    push_char(&mut out, '{');
    let ghost head = out@;
    let mut i: usize = 0;
    while i < units.len()
        invariant
            i <= units.len(),
            units@ == all_units(),
            out@ == head + unit_entries(units@.take(i as int)),
        decreases units.len() - i,
    {
        let u = units[i];
        assert(units@.take(i + 1).drop_last() == units@.take(i as int));
        assert(units@.take(i + 1).last() == u);
        if i > 0 {
            push_char(&mut out, ',');
        } else {
            assert(units@.take(1) =~= seq![u]);
        }
        push_str(&mut out, u.as_str());
        push_char(&mut out, ':');
        push_decimal(&mut out, u.nm_per_unit());
        proof {
            if i > 0 {
                assert(out@ =~= head + (unit_entries(units@.take(i as int)) + seq![','] + unit_entry(u)));
            } else {
                assert(out@ =~= head + unit_entry(u));
            }
        }
        i = i + 1;
    }
    assert(units@.take(units.len() as int) == units@);
    push_char(&mut out, '}');
    assert(out@ =~= units_js_spec());
    out
}

/// What the client first displays for the millimetre text `mm`.
pub open spec fn client_display(mm: Seq<char>, unit: LengthUnit) -> Seq<char> {
    match parse_mm_spec(mm) {
        Ok(nm) => format_nm_spec(nm as int, unit.nm_spec()),
        Err(_) => mm,
    }
}

/// The client state of a length input holding `mm` shown in `unit`.
pub open spec fn length_alpine_spec(mm: Seq<char>, unit: LengthUnit) -> Seq<char> {
    LENGTH_JS_OPEN@ + json_string_of(mm) + LENGTH_JS_AFTER_MM@ + json_string_of(client_display(mm, unit))
        + LENGTH_JS_AFTER_DISPLAY@ + json_string_of(unit.name_spec()) + LENGTH_JS_AFTER_UNIT@ + units_js_spec()
        + LENGTH_JS_CLOSE@
}

/// The client state of a length input.
pub fn length_alpine_data(mm: &str, unit: LengthUnit) -> (r: String)
    ensures
        r@ == length_alpine_spec(mm@, unit),
{
    let display = match parse_mm(mm) {
        Ok(nm) => format_nm(nm, unit),
        Err(_) => crate::text::to_owned(mm),
    };
    let mut out = crate::text::to_owned(LENGTH_JS_OPEN);
    let a = json_str(mm);
    push_str(&mut out, a.as_str());
    push_str(&mut out, LENGTH_JS_AFTER_MM);
    let b = json_str(display.as_str());
    push_str(&mut out, b.as_str());
    push_str(&mut out, LENGTH_JS_AFTER_DISPLAY);
    let c = json_str(unit.as_str());
    push_str(&mut out, c.as_str());
    push_str(&mut out, LENGTH_JS_AFTER_UNIT);
    let d = units_js();
    push_str(&mut out, d.as_str());
    push_str(&mut out, LENGTH_JS_CLOSE);
    out
}

/// Length input with a unit selector; `value` is millimetres (`Decimal(15, 6)`).
pub struct InputLength<'a> {
    pub label: &'a str,
    pub name: &'a str,
    /// Canonical millimetre string.
    pub value: &'a str,
    /// Initial display unit (`mm`, `cm`, `m`, `km`, `in`, `ft`); millimetres when unknown.
    pub unit: &'a str,
    pub required: bool,
    pub classes: &'a str,
    pub attrs: HtmlAttrs,
}

impl Default for InputLength<'_> {
    fn default() -> (r: Self)
        ensures
            r.label@ == "Length"@,
            r.name@ == ""@,
            r.value@ == ""@,
            r.unit@ == "mm"@,
            !r.required,
            r.classes@ == ""@,
            r.attrs@ == Seq::<(Seq<char>, Seq<char>)>::empty(),
    {
        InputLength {
            label: "Length",
            name: "",
            value: "",
            unit: "mm",
            required: false,
            classes: "",
            attrs: HtmlAttrs::new(),
        }
    }
}

/// The unit shown first: the named one, else millimetres.
pub open spec fn display_unit(unit: Seq<char>) -> LengthUnit {
    match unit_named(unit) {
        Some(u) => u,
        None => LengthUnit::Millimetre,
    }
}

/// The millimetre text an input holds and submits for `value`: its canonical
/// form, or the trimmed text when it does not read as a length.
pub open spec fn submitted_mm(value: Seq<char>) -> Seq<char> {
    match normalize_mm_spec(value) {
        Ok(mm) => mm,
        Err(_) => trim(value),
    }
}

/// The text the input first shows for `value` in `unit`.
pub open spec fn shown_value(value: Seq<char>, unit: LengthUnit) -> Seq<char> {
    match normalize_mm_spec(value) {
        Ok(mm) => if mm.len() == 0 {
            mm
        } else {
            format_nm_spec(
                match parse_mm_spec(mm) {
                    Ok(n) => n as int,
                    Err(_) => 0,
                },
                unit.nm_spec(),
            )
        },
        Err(_) => trim(value),
    }
}

/// One `<option>` of the unit selector.
pub open spec fn unit_option(u: LengthUnit, selected: LengthUnit) -> Seq<char> {
    "<option value=\""@ + escape_html(u.name_spec()) + "\""@ + (if u == selected {
        " selected"@
    } else {
        seq![]
    }) + ">"@ + escape_html(u.name_spec()) + "</option>"@
}

/// The options for `us`.
pub open spec fn unit_options(us: Seq<LengthUnit>, selected: LengthUnit) -> Seq<char>
    decreases us.len(),
{
    if us.len() == 0 {
        seq![]
    } else {
        unit_options(us.drop_last(), selected) + unit_option(us.last(), selected)
    }
}

/// The unit selector's opening tag.
pub const UNIT_SELECT_OPEN: &'static str = "<select class=\"select select-bordered join-item w-20 shrink-0\" x-model=\"unit\" @change=\"mmToDisplay()\" aria-label=\"Length unit\">";

/// The visible text input, up to its value.
pub const LENGTH_TEXT_OPEN: &'static str = "<input type=\"text\" inputmode=\"decimal\" x-model=\"display\" @input=\"syncMm(false)\" value=\"";

/// The visible text input after its value, up to the optional flags.
pub const LENGTH_TEXT_REST: &'static str = "\" placeholder=\"0\" class=\"input input-bordered join-item min-w-0 flex-1\" autocomplete=\"off\" spellcheck=\"false\"";

/// The error line under the control.
pub const LENGTH_ERROR_LINE: &'static str = "<p class=\"text-error text-sm\" x-bind:hidden=\"!error\" x-text=\"error\" role=\"alert\"></p>";

/// The opening of the input: wrapper with the client state, and the label.
pub open spec fn length_open_spec(classes: Seq<char>, alpine: Seq<char>, label: Seq<char>) -> Seq<char> {
    "<div class=\""@ + escape_attr_seq("my-1 "@ + classes) + "\" x-data=\""@ + escape_attr_seq(alpine)
        + "\" x-init=\"bindForm()\">"@
        + "<label class=\"label text-sm font-bold flex flex-col items-start gap-1 w-full\">"@ + (if label.len() == 0 {
        seq![]
    } else {
        "<span>"@ + escape_html(label) + "</span>"@
    })
}

/// The visible control: text input and unit selector.
pub open spec fn length_control_spec(
    shown: Seq<char>,
    required: bool,
    attrs: Seq<(Seq<char>, Seq<char>)>,
    unit: LengthUnit,
) -> Seq<char> {
    "<div class=\"join w-full\">"@ + LENGTH_TEXT_OPEN@ + escape_attr_seq(shown) + LENGTH_TEXT_REST@ + (if required {
        " required"@
    } else {
        seq![]
    }) + render_entries(attrs) + ">"@ + UNIT_SELECT_OPEN@ + unit_options(all_units(), unit) + "</select></div>"@
}

/// The hidden input that submits the millimetres (none without a name).
pub open spec fn length_hidden_spec(name: Seq<char>, mm: Seq<char>) -> Seq<char> {
    if name.len() == 0 {
        seq![]
    } else {
        "<input type=\"hidden\" name=\""@ + escape_attr_seq(name) + "\" x-model=\"mm\" value=\""@
            + escape_attr_seq(mm) + "\">"@
    }
}

/// The whole length input.
pub open spec fn input_length_spec(opts: InputLength) -> Seq<char> {
    let unit = display_unit(opts.unit@);
    let mm = submitted_mm(opts.value@);
    length_open_spec(opts.classes@, length_alpine_spec(mm, unit), opts.label@) + length_control_spec(
        shown_value(opts.value@, unit),
        opts.required,
        opts.attrs@,
        unit,
    ) + length_hidden_spec(opts.name@, mm) + LENGTH_ERROR_LINE@ + "</label></div>"@
}

fn push_unit_option(out: &mut String, u: LengthUnit, selected: LengthUnit)
    ensures
        final(out)@ == old(out)@ + unit_option(u, selected),
{
    push_str(out, "<option value=\"");
    push_escaped_html(out, u.as_str());
    push_str(out, "\"");
    let ghost s0 = out@;
    if u == selected {
        push_str(out, " selected");
    } else {
        assert(s0 + Seq::<char>::empty() == s0);
    }
    push_str(out, ">");
    push_escaped_html(out, u.as_str());
    push_str(out, "</option>");
}

fn push_unit_options(out: &mut String, selected: LengthUnit)
    ensures
        final(out)@ == old(out)@ + unit_options(all_units(), selected),
{
    let units = length_units();
    let ghost head = out@;
    let mut i: usize = 0;
    while i < units.len()
        invariant
            i <= units.len(),
            units@ == all_units(),
            out@ == head + unit_options(units@.take(i as int), selected),
        decreases units.len() - i,
    {
        let u = units[i];
        proof {
            assert(units@.take(i + 1).drop_last() == units@.take(i as int));
            assert(units@.take(i + 1).last() == u);
        }
        push_unit_option(out, u, selected);
        i = i + 1;
    }
    assert(units@.take(units.len() as int) == units@);
}

/// The submitted and shown texts of a length input.
fn length_texts(value: &str, unit: LengthUnit) -> (r: (String, String))
    ensures
        r.0@ == submitted_mm(value@),
        r.1@ == shown_value(value@, unit),
{
    match normalize_mm(value) {
        Ok(mm) => {
            if mm.as_str().is_empty() {
                let shown = String::new();
                proof {
                    reveal_strlit("");
                }
                (mm, shown)
            } else {
                let nm = match parse_mm(mm.as_str()) {
                    Ok(n) => n,
                    Err(_) => 0,
                };
                let shown = format_nm(nm, unit);
                (mm, shown)
            }
        },
        Err(_) => {
            let t = trim_str(value);
            let a = crate::text::string_of(&t);
            let b = crate::text::string_of(&t);
            (a, b)
        },
    }
}

fn length_open(classes: &str, alpine: &str, label: &str) -> (r: String)
    ensures
        r@ == length_open_spec(classes@, alpine@, label@),
{
    let mut wrap = crate::text::to_owned("my-1 ");
    push_str(&mut wrap, classes);
    let mut out = crate::text::to_owned("<div class=\"");
    push_escaped_attr(&mut out, wrap.as_str());
    push_str(&mut out, "\" x-data=\"");
    push_escaped_attr(&mut out, alpine);
    push_str(&mut out, "\" x-init=\"bindForm()\">");
    push_str(&mut out, "<label class=\"label text-sm font-bold flex flex-col items-start gap-1 w-full\">");
    let ghost s0 = out@;
    if !label.is_empty() {
        push_str(&mut out, "<span>");
        push_escaped_html(&mut out, label);
        push_str(&mut out, "</span>");
    } else {
        assert(s0 + Seq::<char>::empty() == s0);
    }
    out
}

fn length_control(out: &mut String, shown: &str, required: bool, attrs: &HtmlAttrs, unit: LengthUnit)
    ensures
        final(out)@ == old(out)@ + length_control_spec(shown@, required, attrs@, unit),
{
    push_str(out, "<div class=\"join w-full\">");
    push_str(out, LENGTH_TEXT_OPEN);
    push_escaped_attr(out, shown);
    push_str(out, LENGTH_TEXT_REST);
    let ghost s1 = out@;
    if required {
        push_str(out, " required");
    } else {
        assert(s1 + Seq::<char>::empty() == s1);
    }
    let a = attrs.as_string();
    push_str(out, a.as_str());
    push_str(out, ">");
    push_str(out, UNIT_SELECT_OPEN);
    push_unit_options(out, unit);
    push_str(out, "</select></div>");
}

fn length_hidden(out: &mut String, name: &str, mm: &str)
    ensures
        final(out)@ == old(out)@ + length_hidden_spec(name@, mm@),
{
    if !name.is_empty() {
        push_str(out, "<input type=\"hidden\" name=\"");
        push_escaped_attr(out, name);
        push_str(out, "\" x-model=\"mm\" value=\"");
        push_escaped_attr(out, mm);
        push_str(out, "\">");
    } else {
        assert(old(out)@ + Seq::<char>::empty() == old(out)@);
    }
}

/// Render a length input: it shows the value in the chosen unit and always
/// submits millimetres; the selector only changes what is shown.
pub fn input_length(opts: InputLength) -> (r: String)
    ensures
        r@ == input_length_spec(opts),
{
    let unit = match parse_length_unit(opts.unit) {
        Some(u) => u,
        None => LengthUnit::Millimetre,
    };
    let (mm, shown) = length_texts(opts.value, unit);
    let alpine = length_alpine_data(mm.as_str(), unit);
    let mut out = length_open(opts.classes, alpine.as_str(), opts.label);
    length_control(&mut out, shown.as_str(), opts.required, &opts.attrs, unit);
    length_hidden(&mut out, opts.name, mm.as_str());
    push_str(&mut out, LENGTH_ERROR_LINE);
    push_str(&mut out, "</label></div>");
    out
}

// ---------------------------------------------------------------------------
// Reading back the canonical millimetre text
// ---------------------------------------------------------------------------

/// What remains of `rem` after [`frac_digits`] has written its digits.
pub open spec fn frac_rest(rem: nat, u: nat, n: nat) -> nat
    decreases n,
{
    if n == 0 || rem == 0 || u == 0 {
        rem
    } else {
        frac_rest((rem * 10) % u, u, (n - 1) as nat)
    }
}

proof fn lemma_pow10_add(a: nat, b: nat)
    ensures
        pow10(a + b) == pow10(a) * pow10(b),
    decreases a,
{
    if a > 0 {
        let a1 = (a - 1) as nat;
        lemma_pow10_add(a1, b);
        let x = pow10(a1);
        let y = pow10(b);
        assert(pow10(a1 + b) == x * y);
        assert(pow10(a + b) == 10 * pow10(a1 + b)) by {
            assert(((a + b) - 1) as nat == a1 + b);
        }
        assert(pow10(a) == 10 * x);
        assert(10 * (x * y) == (10 * x) * y) by (nonlinear_arith);
    } else {
        assert(pow10(0) == 1);
        assert(a + b == b);
    }
}

/// A leading digit is worth its place.
proof fn lemma_digits_value_cons(d: char, s: Seq<char>)
    requires
        '0' <= d <= '9',
    ensures
        digits_value(seq![d] + s) == ((d as u32) - ('0' as u32)) as nat * pow10(s.len()) + digits_value(s),
    decreases s.len(),
{
    let t = seq![d] + s;
    let dv = ((d as u32) - ('0' as u32)) as nat;
    if s.len() == 0 {
        assert(t.drop_last() =~= Seq::<char>::empty());
        assert(t.last() == d);
        assert(digits_value(t) == digits_value(t.drop_last()) * 10 + dv);
        assert(pow10(0) == 1);
    } else {
        assert(t.drop_last() =~= seq![d] + s.drop_last());
        lemma_digits_value_cons(d, s.drop_last());
        let p = pow10(s.drop_last().len());
        let last = ((s.last() as u32) - ('0' as u32)) as nat;
        let w = digits_value(s.drop_last());
        assert(t.last() == s.last());
        assert(digits_value(t) == digits_value(t.drop_last()) * 10 + last);
        assert(digits_value(t.drop_last()) == dv * p + w);
        assert(digits_value(s) == w * 10 + last);
        assert(pow10(s.len()) == 10 * p) by {
            assert((s.len() - 1) as nat == s.drop_last().len());
        }
        assert((dv * p + w) * 10 + last == dv * (10 * p) + (w * 10 + last)) by (nonlinear_arith);
    }
}

/// The digits written for `rem / u` and what is left: `rem * 10^k = value * u + rest`,
/// and the writing stops only when nothing is left or `n` digits are written.
#[verifier::spinoff_prover]
#[verifier::rlimit(30)]
proof fn lemma_frac_digits(rem: nat, u: nat, n: nat)
    requires
        u >= 1,
        rem < u,
    ensures
        all_digits(frac_digits(rem, u, n)),
        frac_digits(rem, u, n).len() <= n,
        rem * pow10(frac_digits(rem, u, n).len()) == digits_value(frac_digits(rem, u, n)) * u + frac_rest(rem, u, n),
        frac_rest(rem, u, n) < u,
        frac_rest(rem, u, n) == 0 || frac_digits(rem, u, n).len() == n,
    decreases n,
{
    if n == 0 || rem == 0 {
        assert(frac_digits(rem, u, n) == Seq::<char>::empty());
        assert(pow10(0) == 1);
        assert(digits_value(Seq::<char>::empty()) == 0);
        assert(frac_rest(rem, u, n) == rem);
        let dd = frac_digits(rem, u, n);
        let p0 = pow10(dd.len());
        assert(p0 == 1);
        assert(rem * p0 == rem) by (nonlinear_arith)
            requires
                p0 == 1,
        ;
        let z = digits_value(dd);
        assert(z * u == 0) by (nonlinear_arith)
            requires
                z == 0,
        ;
        assert(rem * pow10(dd.len()) == digits_value(dd) * u + frac_rest(rem, u, n));
    } else {
        let d = (rem * 10) / u;
        let r1 = (rem * 10) % u;
        assert(rem * 10 == d * u + r1) by (nonlinear_arith)
            requires
                d == (rem * 10) / u,
                r1 == (rem * 10) % u,
                u >= 1,
        ;
        assert(d < 10) by (nonlinear_arith)
            requires
                rem * 10 == d * u + r1,
                rem < u,
                r1 >= 0,
        ;
        assert(r1 < u) by (nonlinear_arith)
            requires
                r1 == (rem * 10) % u,
                u >= 1,
        ;
        lemma_frac_digits(r1, u, (n - 1) as nat);
        let tail = frac_digits(r1, u, (n - 1) as nat);
        let c = digit_char(d);
        assert((c as u32) == 48 + d);
        assert(frac_digits(rem, u, n) == seq![c] + tail);
        lemma_digits_value_cons(c, tail);
        let k = tail.len();
        let vt = digits_value(tail);
        let rest = frac_rest(r1, u, (n - 1) as nat);
        assert(((c as u32) - ('0' as u32)) as nat == d);
        assert(pow10(k + 1) == 10 * pow10(k)) by {
            assert(pow10((k + 1) as nat) == 10 * pow10(k));
        }
        let pk = pow10(k);
        assert(rem * (10 * pk) == (d * pk + vt) * u + rest) by (nonlinear_arith)
            requires
                rem * 10 == d * u + r1,
                r1 * pk == vt * u + rest,
        ;
        assert(frac_digits(rem, u, n).len() == k + 1);
        assert(digits_value(frac_digits(rem, u, n)) == d * pk + vt);
        assert(frac_rest(rem, u, n) == rest);
        assert(pow10(frac_digits(rem, u, n).len()) == 10 * pk);
        let dd = frac_digits(rem, u, n);
        assert(rem * pow10(dd.len()) == digits_value(dd) * u + frac_rest(rem, u, n));
        assert forall|i: int| 0 <= i < (seq![c] + tail).len() implies '0' <= #[trigger] (seq![c] + tail)[i] && (
        seq![c] + tail)[i] <= '9' by {
            if i > 0 {
                assert((seq![c] + tail)[i] == tail[i - 1]);
            }
        }
    }
}

/// Trailing zeros only scale the value.
proof fn lemma_trim_zeros(s: Seq<char>)
    requires
        all_digits(s),
    ensures
        trim_end_char(s, '0').len() <= s.len(),
        trim_end_char(s, '0') == s.take(trim_end_char(s, '0').len() as int),
        all_digits(trim_end_char(s, '0')),
        digits_value(s) == digits_value(trim_end_char(s, '0')) * pow10((s.len() - trim_end_char(s, '0').len()) as nat),
    decreases s.len(),
{
    if s.len() > 0 && s.last() == '0' {
        assert(all_digits(s.drop_last()));
        lemma_trim_zeros(s.drop_last());
        let t = trim_end_char(s, '0');
        assert(t == trim_end_char(s.drop_last(), '0'));
        let m = (s.drop_last().len() - t.len()) as nat;
        assert(s.drop_last().take(t.len() as int) == s.take(t.len() as int));
        assert(((s.last() as u32) - ('0' as u32)) as nat == 0);
        assert(digits_value(s) == digits_value(s.drop_last()) * 10);
        let pm = pow10(m);
        let vt = digits_value(t);
        assert(digits_value(s.drop_last()) == vt * pm);
        assert((s.len() - t.len()) as nat == m + 1);
        assert(pow10(m + 1) == 10 * pm);
        assert(vt * pm * 10 == vt * (10 * pm)) by (nonlinear_arith);
    } else {
        assert(s.take(s.len() as int) == s);
        assert(trim_end_char(s, '0') == s);
        let p0 = pow10((s.len() - trim_end_char(s, '0').len()) as nat);
        assert(p0 == 1);
        let v = digits_value(s);
        assert(v == v * p0) by (nonlinear_arith)
            requires
                p0 == 1,
        ;
    }
}

/// The fraction written for a millimetre remainder: digits whose value over
/// `10^len` is exactly `rem / 10^6`.
proof fn lemma_mm_fraction(rem: nat)
    requires
        0 < rem < 1_000_000,
    ensures
        ({
            let t = trim_end_char(frac_digits(rem, 1_000_000, 18), '0');
            &&& all_digits(t)
            &&& t.len() <= 18
            &&& digits_value(t) * 1_000_000 == rem * pow10(t.len())
        }),
{
    let u: nat = 1_000_000;
    lemma_frac_digits(rem, u, 18);
    let d = frac_digits(rem, u, 18);
    let k = d.len();
    let rest = frac_rest(rem, u, 18);
    if rest != 0 {
        assert(k == 18);
        assert(pow10(18) == pow10(6) * pow10(12)) by {
            lemma_pow10_add(6, 12);
        }
        reveal_with_fuel(pow10, 7);
        assert(pow10(6) == 1_000_000);
        let p12 = pow10(12);
        let v = digits_value(d);
        assert(rest == 1_000_000 * (rem * p12 - v)) by (nonlinear_arith)
            requires
                rem * (1_000_000 * p12) == v * 1_000_000 + rest,
        ;
        assert(false) by (nonlinear_arith)
            requires
                rest == 1_000_000 * (rem * p12 - v),
                0 < rest < 1_000_000,
        ;
    }
    lemma_trim_zeros(d);
    let t = trim_end_char(d, '0');
    let m = (k - t.len()) as nat;
    lemma_pow10_add(t.len(), m);
    lemma_pow10_pos(m);
    let vt = digits_value(t);
    let pt = pow10(t.len());
    let pm = pow10(m);
    assert(vt * 1_000_000 == rem * pt) by (nonlinear_arith)
        requires
            rem * (pt * pm) == (vt * pm) * 1_000_000,
            pm >= 1,
    ;
}

/// A text that starts and ends with something other than white space is its own trim.
proof fn lemma_trim_same(s: Seq<char>)
    requires
        s.len() > 0,
        !crate::text::is_whitespace(s[0]),
        !crate::text::is_whitespace(s.last()),
    ensures
        trim(s) == s,
{
    assert(crate::text::trim_start(s) == s);
    assert(crate::text::trim_end(s) == s);
}

/// A text without commas keeps its characters.
proof fn lemma_no_commas(s: Seq<char>)
    requires
        forall|i: int| 0 <= i < s.len() ==> s[i] != ',',
    ensures
        remove_commas(s) == s,
    decreases s.len(),
{
    if s.len() > 0 {
        lemma_no_commas(s.drop_last());
        assert(s.drop_last() + seq![s.last()] =~= s);
    }
}

/// What the unsigned part of a canonical millimetre text reads as.
proof fn lemma_mm_body(a: nat, neg: bool) -> (body: Seq<char>)
    requires
        a <= MAX_NM,
    ensures
        body.len() > 0,
        forall|i: int| 0 <= i < body.len() ==> ('0' <= #[trigger] body[i] <= '9' || body[i] == '.'),
        '0' <= body[0] <= '9',
        parse_body(body, neg, mm_nm()) == LengthParse::Nm((if neg { -a } else { a as int }) as i64),
        body == (if a % 1_000_000 == 0 {
            decimal(a / 1_000_000)
        } else {
            decimal(a / 1_000_000) + seq!['.'] + trim_end_char(frac_digits(a % 1_000_000, 1_000_000, 18), '0')
        }),
{
    let u: nat = 1_000_000;
    let whole = a / u;
    let rem = a % u;
    assert(a == whole * u + rem) by (nonlinear_arith)
        requires
            whole == a / u,
            rem == a % u,
            u > 0,
    ;
    crate::laws::lemma_decimal_digits(whole);
    let w = decimal(whole);
    if rem == 0 {
        let body = w;
        crate::text::lemma_find_char_is(body, '.', -1);
        assert(int_part(body) == w);
        assert(frac_part(body) == Seq::<char>::empty());
        assert(!has_char(frac_part(body), '.'));
        assert(frac_used(frac_part(body)) == Seq::<char>::empty());
        assert(pow10(0) == 1);
        assert(digits_value(Seq::<char>::empty()) == 0);
        let numer = (whole * 1 + 0) * u;
        assert(numer == a);
        assert(round_div(numer, 1) == a);
        assert(body != seq!['.']) by {
            if body == seq!['.'] {
                assert(body[0] == '.');
            }
        }
        body
    } else {
        lemma_mm_fraction(rem);
        let t = trim_end_char(frac_digits(rem, u, 18), '0');
        let body = w + seq!['.'] + t;
        let k = t.len();
        let pk = pow10(k);
        lemma_pow10_pos(k);
        assert forall|i: int| 0 <= i < body.len() implies ('0' <= #[trigger] body[i] <= '9' || body[i] == '.') by {
            if i < w.len() {
                assert(body[i] == w[i]);
            } else if i > w.len() {
                assert(body[i] == t[i - w.len() - 1]);
            }
        }
        assert(body[0] == w[0]);
        crate::text::lemma_find_char_is(body, '.', w.len() as int);
        assert(body.take(w.len() as int) == w);
        assert(body.skip(w.len() as int + 1) == t);
        assert(int_part(body) == w);
        assert(frac_part(body) == t);
        assert(!has_char(t, '.')) by {
            if has_char(t, '.') {
                let i = choose|i: int| 0 <= i < t.len() && t[i] == '.';
                assert('0' <= t[i] <= '9');
            }
        }
        assert(frac_used(t) == t);
        let vt = digits_value(t);
        assert(vt * u == rem * pk);
        let numer = (whole * pk + vt) * u;
        assert(numer == a * pk) by (nonlinear_arith)
            requires
                numer == (whole * pk + vt) * u,
                vt * u == rem * pk,
                a == whole * u + rem,
        ;
        vstd::arithmetic::div_mod::lemma_div_multiples_vanish(a as int, pk as int);
        vstd::arithmetic::div_mod::lemma_mod_multiples_basic(a as int, pk as int);
        assert((a * pk) / pk == a);
        assert((a * pk) % pk == 0);
        assert(round_div(numer, pk) == a);
        assert(magnitude_nm(w, t, u) == a);
        assert(body != seq!['.']) by {
            if body == seq!['.'] {
                assert(body[0] == '.');
            }
        }
        body
    }
}

/// The canonical millimetre text of a storable length reads back as that length.
pub(crate) proof fn lemma_mm_round_trip(n: i64)
    requires
        -(MAX_NM as int) <= n <= MAX_NM,
    ensures
        parse_length_spec(format_nm_spec(n as int, mm_nm()), mm_nm()) == LengthParse::Nm(n),
{
    let a: nat = (if n < 0 { -n } else { n as int }) as nat;
    let body = lemma_mm_body(a, n < 0);
    let f = format_nm_spec(n as int, mm_nm());
    let sign = if n < 0 { seq!['-'] } else { Seq::<char>::empty() };
    assert(f == sign + body);
    assert forall|i: int| 0 <= i < f.len() implies f[i] != ',' by {
        if n < 0 && i == 0 {
            assert(f[0] == '-');
        } else if n < 0 {
            assert(f[i] == body[i - 1]);
        } else {
            assert(f[i] == body[i]);
        }
    }
    assert(!crate::text::is_whitespace(f[0])) by {
        if n < 0 {
            assert(f[0] == '-');
        } else {
            assert(f[0] == body[0]);
        }
    }
    assert(f.last() == body.last());
    assert(!crate::text::is_whitespace(body.last()));
    assert(!crate::text::is_whitespace(body[0]));
    lemma_trim_same(f);
    lemma_no_commas(f);
    lemma_trim_same(body);
    if n < 0 {
        assert(f.drop_first() == body);
        assert(-a == n);
    } else {
        assert(f == body);
        assert(f[0] != '-' && f[0] != '+');
    }
}

} // verus!
