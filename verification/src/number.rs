//! Numeric text recognisers and the IEEE-754 bit view of the adapter's
//! floating-point inputs.
use vstd::prelude::*;
use crate::text::{ascii_uppercase, chars_of};

verus! {

// ----- binary64 values held by their bit pattern --------------------------

/// A binary64 floating-point value carried by its IEEE-754 bit pattern
/// (`f64::to_bits`). Order and size inputs of the trading tools are
/// binary64 values on the wire; the library only ever needs to know whether
/// such a value is finite and strictly positive, and to pass it on unchanged.
#[derive(Debug, Clone, Copy, PartialEq, Eq, Structural)]
pub struct F64Bits {
    /// The raw bit pattern.
    pub bits: u64,
}

/// Bit pattern of positive infinity; every larger pattern is a NaN or has the
/// sign bit set.
pub const POSITIVE_INFINITY_BITS: u64 = 0x7FF0_0000_0000_0000u64;

/// `x.is_finite() && x > 0.0`. A binary64 value is finite and strictly
/// positive exactly when its sign bit is clear, its exponent field is not all
/// ones, and it is not `+0.0`; that is, when its bit pattern lies strictly
/// between `0` and the pattern of `+inf`.
pub open spec fn positive_finite(x: F64Bits) -> bool {
    0 < x.bits && x.bits < POSITIVE_INFINITY_BITS
}

impl F64Bits {
    /// Wraps a bit pattern.
    pub fn from_bits(bits: u64) -> (r: F64Bits)
        ensures
            r.bits == bits,
    {
        F64Bits { bits }
    }

    /// `x.is_finite() && x > 0.0`.
    pub fn is_positive_finite(&self) -> (r: bool)
        ensures
            r == positive_finite(*self),
    {
        0 < self.bits && self.bits < POSITIVE_INFINITY_BITS
    }
}

// ----- digits -------------------------------------------------------------

/// An ASCII decimal digit.
pub open spec fn is_ascii_digit(c: char) -> bool {
    '0' <= c && c <= '9'
}

/// Every character of `s` is an ASCII decimal digit.
pub open spec fn all_digits(s: Seq<char>) -> bool {
    forall|i: int| 0 <= i < s.len() ==> is_ascii_digit(#[trigger] s[i])
}

/// `+` or `-`.
pub open spec fn is_sign(c: char) -> bool {
    c == '+' || c == '-'
}

/// Index of the first character of `s` equal to `a` or `b`; `s.len()` when
/// there is none.
pub open spec fn first_index_of(s: Seq<char>, a: char, b: char) -> int
    decreases s.len(),
{
    if s.len() == 0 {
        0
    } else if s[0] == a || s[0] == b {
        0
    } else {
        1 + first_index_of(s.drop_first(), a, b)
    }
}

pub proof fn lemma_first_index_of(s: Seq<char>, a: char, b: char, i: int)
    requires
        0 <= i <= s.len(),
        forall|k: int| 0 <= k < i ==> s[k] != a && s[k] != b,
        i == s.len() || s[i] == a || s[i] == b,
    ensures
        first_index_of(s, a, b) == i,
    decreases i,
{
    if i > 0 {
        let t = s.drop_first();
        assert forall|k: int| 0 <= k < i - 1 implies t[k] != a && t[k] != b by {
            assert(t[k] == s[k + 1]);
        }
        if i < s.len() {
            assert(t[i - 1] == s[i]);
        }
        lemma_first_index_of(t, a, b, i - 1);
    }
}

// ----- the `f64::from_str` grammar ----------------------------------------

/// Mantissa of a decimal literal: `Digit+`, `Digit+ '.' Digit*` or
/// `Digit* '.' Digit+`.
pub open spec fn decimal_mantissa(m: Seq<char>) -> bool {
    let d = first_index_of(m, '.', '.');
    if d == m.len() {
        m.len() > 0 && all_digits(m)
    } else {
        let whole = m.take(d);
        let frac = m.skip(d + 1);
        all_digits(whole) && all_digits(frac) && whole.len() + frac.len() > 0
    }
}

/// Exponent digits after the `e`: `Sign? Digit+`.
pub open spec fn exponent_digits(x: Seq<char>) -> bool {
    let y = if x.len() > 0 && is_sign(x[0]) { x.drop_first() } else { x };
    y.len() > 0 && all_digits(y)
}

/// `Number ::= Mantissa ( [eE] Sign? Digit+ )?`
pub open spec fn decimal_number(s: Seq<char>) -> bool {
    let e = first_index_of(s, 'e', 'E');
    decimal_mantissa(s.take(e)) && (e == s.len() || exponent_digits(s.skip(e + 1)))
}

/// The literal after the optional sign: `inf`, `infinity`, `nan` (in any
/// ASCII case) or a decimal number.
pub open spec fn float_body(s: Seq<char>) -> bool {
    ||| ascii_uppercase(s) == seq!['I', 'N', 'F']
    ||| ascii_uppercase(s) == seq!['I', 'N', 'F', 'I', 'N', 'I', 'T', 'Y']
    ||| ascii_uppercase(s) == seq!['N', 'A', 'N']
    ||| decimal_number(s)
}

/// The strings that `str::parse::<f64>` accepts, per its documented grammar
/// `Sign? ( 'inf' | 'infinity' | 'nan' | Number )`, letters compared without
/// regard to ASCII case, no surrounding white space.
pub open spec fn is_float_literal(s: Seq<char>) -> bool {
    if s.len() > 0 && is_sign(s[0]) {
        float_body(s.drop_first())
    } else {
        float_body(s)
    }
}

fn digits_in(v: &Vec<char>, lo: usize, hi: usize) -> (r: bool)
    requires
        lo <= hi <= v@.len(),
    ensures
        r == all_digits(v@.subrange(lo as int, hi as int)),
{
    let mut i = lo;
    while i < hi
        invariant
            lo <= i <= hi,
            hi <= v@.len(),
            forall|k: int| lo <= k < i ==> is_ascii_digit(#[trigger] v@[k]),
        decreases hi - i,
    {
        let c = v[i];
        if !('0' <= c && c <= '9') {
            assert(v@.subrange(lo as int, hi as int)[i - lo] == c);
            return false;
        }
        i = i + 1;
    }
    assert forall|k: int| 0 <= k < hi - lo implies is_ascii_digit(
        #[trigger] v@.subrange(lo as int, hi as int)[k],
    ) by {
        assert(v@.subrange(lo as int, hi as int)[k] == v@[lo + k]);
    }
    true
}

fn first_index_in(v: &Vec<char>, lo: usize, hi: usize, a: char, b: char) -> (r: usize)
    requires
        lo <= hi <= v@.len(),
    ensures
        lo <= r <= hi,
        r - lo == first_index_of(v@.subrange(lo as int, hi as int), a, b),
{
    let ghost s = v@.subrange(lo as int, hi as int);
    let mut i = lo;
    while i < hi && v[i] != a && v[i] != b
        invariant
            lo <= i <= hi,
            hi <= v@.len(),
            s == v@.subrange(lo as int, hi as int),
            forall|k: int| lo <= k < i ==> v@[k] != a && v@[k] != b,
        decreases hi - i,
    {
        i = i + 1;
    }
    proof {
        assert forall|k: int| 0 <= k < i - lo implies s[k] != a && s[k] != b by {
            assert(s[k] == v@[lo + k]);
        }
        if i < hi {
            assert(s[i - lo] == v@[i as int]);
        }
        lemma_first_index_of(s, a, b, i - lo);
    }
    i
}

fn keyword_in(v: &Vec<char>, lo: usize, hi: usize, kw: &Vec<char>) -> (r: bool)
    requires
        lo <= hi <= v@.len(),
    ensures
        r == (ascii_uppercase(v@.subrange(lo as int, hi as int)) == kw@),
{
    let ghost s = v@.subrange(lo as int, hi as int);
    if hi - lo != kw.len() {
        assert(ascii_uppercase(s).len() != kw@.len());
        return false;
    }
    let mut i: usize = 0;
    while i < kw.len()
        invariant
            lo <= hi <= v@.len(),
            hi - lo == kw@.len(),
            s == v@.subrange(lo as int, hi as int),
            i <= kw@.len(),
            forall|k: int| 0 <= k < i ==> crate::text::ascii_upper(#[trigger] s[k]) == kw@[k],
        decreases kw@.len() - i,
    {
        let c = crate::text::upper_char(v[lo + i]);
        assert(s[i as int] == v@[lo + i]);
        if c != kw[i] {
            assert(ascii_uppercase(s)[i as int] != kw@[i as int]);
            return false;
        }
        i = i + 1;
    }
    assert(ascii_uppercase(s) =~= kw@);
    true
}

fn mantissa_in(v: &Vec<char>, lo: usize, hi: usize) -> (r: bool)
    requires
        lo <= hi <= v@.len(),
    ensures
        r == decimal_mantissa(v@.subrange(lo as int, hi as int)),
{
    let ghost m = v@.subrange(lo as int, hi as int);
    let d = first_index_in(v, lo, hi, '.', '.');
    if d == hi {
        hi > lo && digits_in(v, lo, hi)
    } else {
        assert(m.take(d - lo) =~= v@.subrange(lo as int, d as int));
        assert(m.skip(d - lo + 1) =~= v@.subrange(d + 1, hi as int));
        digits_in(v, lo, d) && digits_in(v, d + 1, hi) && (d - lo) + (hi - (d + 1)) > 0
    }
}

fn exponent_in(v: &Vec<char>, lo: usize, hi: usize) -> (r: bool)
    requires
        lo <= hi <= v@.len(),
    ensures
        r == exponent_digits(v@.subrange(lo as int, hi as int)),
{
    let ghost x = v@.subrange(lo as int, hi as int);
    let start = if lo < hi && (v[lo] == '+' || v[lo] == '-') {
        assert(x[0] == v@[lo as int]);
        assert(x.drop_first() =~= v@.subrange(lo + 1, hi as int));
        lo + 1
    } else {
        if lo < hi {
            assert(x[0] == v@[lo as int]);
        }
        lo
    };
    start < hi && digits_in(v, start, hi)
}

fn number_in(v: &Vec<char>, lo: usize, hi: usize) -> (r: bool)
    requires
        lo <= hi <= v@.len(),
    ensures
        r == decimal_number(v@.subrange(lo as int, hi as int)),
{
    let ghost s = v@.subrange(lo as int, hi as int);
    let e = first_index_in(v, lo, hi, 'e', 'E');
    assert(s.take(e - lo) =~= v@.subrange(lo as int, e as int));
    if e == hi {
        mantissa_in(v, lo, e)
    } else {
        assert(s.skip(e - lo + 1) =~= v@.subrange(e + 1, hi as int));
        mantissa_in(v, lo, e) && exponent_in(v, e + 1, hi)
    }
}

fn body_in(v: &Vec<char>, lo: usize, hi: usize) -> (r: bool)
    requires
        lo <= hi <= v@.len(),
    ensures
        r == float_body(v@.subrange(lo as int, hi as int)),
{
    let inf = vec!['I', 'N', 'F'];
    let infinity = vec!['I', 'N', 'F', 'I', 'N', 'I', 'T', 'Y'];
    let nan = vec!['N', 'A', 'N'];
    assert(inf@ =~= seq!['I', 'N', 'F']);
    assert(infinity@ =~= seq!['I', 'N', 'F', 'I', 'N', 'I', 'T', 'Y']);
    assert(nan@ =~= seq!['N', 'A', 'N']);
    keyword_in(v, lo, hi, &inf) || keyword_in(v, lo, hi, &infinity) || keyword_in(
        v,
        lo,
        hi,
        &nan,
    ) || number_in(v, lo, hi)
}

/// Whether `str::parse::<f64>` accepts `s`.
pub fn parses_as_float(s: &str) -> (r: bool)
    ensures
        r == is_float_literal(s@),
{
    let v = chars_of(s);
    let n = v.len();
    assert(v@.subrange(0, n as int) =~= v@);
    if n > 0 && (v[0] == '+' || v[0] == '-') {
        assert(v@.subrange(1, n as int) =~= v@.drop_first());
        body_in(&v, 1, n)
    } else {
        body_in(&v, 0, n)
    }
}

// ----- the `u64::from_str` grammar ----------------------------------------

/// The value of a string of decimal digits.
pub open spec fn digits_value(s: Seq<char>) -> nat
    decreases s.len(),
{
    if s.len() == 0 {
        0
    } else {
        digits_value(s.drop_last()) * 10 + ((s.last() as int) - ('0' as int)) as nat
    }
}

/// What `str::parse::<u64>` returns: an optional `+`, then one or more ASCII
/// digits whose value fits in 64 bits; anything else is an error.
pub open spec fn parse_u64_spec(s: Seq<char>) -> Option<u64> {
    let t = if s.len() > 0 && s[0] == '+' { s.drop_first() } else { s };
    if t.len() > 0 && all_digits(t) && digits_value(t) <= u64::MAX {
        Some(digits_value(t) as u64)
    } else {
        None
    }
}

proof fn lemma_digits_value_monotone(s: Seq<char>, i: int)
    requires
        0 <= i <= s.len(),
        all_digits(s),
    ensures
        digits_value(s.take(i)) <= digits_value(s),
    decreases s.len() - i,
{
    if i < s.len() {
        let t = s.drop_last();
        assert(t.take(i) =~= s.take(i));
        assert forall|k: int| 0 <= k < t.len() implies is_ascii_digit(#[trigger] t[k]) by {
            assert(t[k] == s[k]);
        }
        lemma_digits_value_monotone(t, i);
        assert(is_ascii_digit(s[s.len() - 1]));
    } else {
        assert(s.take(i) =~= s);
    }
}

/// `str::parse::<u64>(s).ok()`.
pub fn parse_u64(s: &str) -> (r: Option<u64>)
    ensures
        r == parse_u64_spec(s@),
{
    let v = chars_of(s);
    let n = v.len();
    let start: usize = if n > 0 && v[0] == '+' { 1 } else { 0 };
    let ghost t = if s@.len() > 0 && s@[0] == '+' { s@.drop_first() } else { s@ };
    assert(t =~= v@.subrange(start as int, n as int));
    if start == n {
        return None;
    }
    let mut acc: u64 = 0;
    let mut i = start;
    while i < n
        invariant
            v@ == s@,
            n == v@.len(),
            start <= i <= n,
            t == v@.subrange(start as int, n as int),
            t == (if s@.len() > 0 && s@[0] == '+' { s@.drop_first() } else { s@ }),
            all_digits(t.take(i - start)),
            acc as nat == digits_value(t.take(i - start)),
        decreases n - i,
    {
        let c = v[i];
        let ghost pre = t.take(i - start);
        assert(t[i - start] == c);
        if !('0' <= c && c <= '9') {
            assert(!is_ascii_digit(t[i - start]));
            assert(!all_digits(t));
            assert(parse_u64_spec(s@) == None::<u64>);
            return None;
        }
        let d: u64 = (c as u64) - ('0' as u64);
        assert(t.take(i + 1 - start).drop_last() =~= pre);
        assert(t.take(i + 1 - start).last() == c);
        if acc > (u64::MAX - d) / 10 {
            proof {
                assert(digits_value(t.take(i + 1 - start)) == acc * 10 + d);
                assert(acc * 10 + d > u64::MAX) by (nonlinear_arith)
                    requires
                        acc > (u64::MAX - d) / 10,
                        d < 10,
                ;
                if all_digits(t) {
                    lemma_digits_value_monotone(t, i + 1 - start);
                    assert(digits_value(t) > u64::MAX);
                }
                assert(parse_u64_spec(s@) == None::<u64>);
            }
            return None;
        }
        assert(acc * 10 + d <= u64::MAX) by (nonlinear_arith)
            requires
                acc <= (u64::MAX - d) / 10,
                d < 10,
        ;
        acc = acc * 10 + d;
        i = i + 1;
        assert forall|k: int| 0 <= k < i - start implies is_ascii_digit(
            #[trigger] t.take(i - start)[k],
        ) by {
            if k < i - 1 - start {
                assert(t.take(i - start)[k] == pre[k]);
            }
        }
    }
    assert(t.take(n - start) =~= t);
    Some(acc)
}

} // verus!
