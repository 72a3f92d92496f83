//! Verified validation of numeric parameter strings.
//!
//! The temperature override must read as a non-negative floating-point
//! literal, and the tool recursion limit as a non-negative integer. Both
//! grammars are stated here as specification functions over character
//! sequences — mirroring the grammar std documents for float and unsigned
//! integer parsing — and checked by verified scanners, so no
//! floating-point arithmetic is involved.

use vstd::prelude::*;
use vstd::string::StrSliceExecFns;

verus! {

/// Whether `c` is a decimal digit.
pub open spec fn is_digit(c: char) -> bool {
    48 <= c as u32 <= 57
}

/// Whether every character of `s` is a decimal digit.
pub open spec fn all_digits(s: Seq<char>) -> bool {
    forall|i: int| 0 <= i < s.len() ==> is_digit(#[trigger] s[i])
}

/// Whether some character of `s` is a nonzero decimal digit.
pub open spec fn has_nonzero_digit(s: Seq<char>) -> bool {
    exists|i: int| 0 <= i < s.len() && 49 <= #[trigger] s[i] as u32 <= 57
}

/// The character code of `c` with an upper-case ASCII letter lowered.
pub open spec fn lower_code(c: char) -> int {
    if 65 <= c as u32 <= 90 {
        c as u32 + 32
    } else {
        c as u32 as int
    }
}

/// Whether `a` reads as `b` up to ASCII case.
pub open spec fn matches_ci(a: Seq<char>, b: Seq<char>) -> bool {
    a.len() == b.len() && forall|i: int|
        0 <= i < a.len() ==> lower_code(#[trigger] a[i]) == lower_code(b[i])
}

/// Whether `c` introduces an exponent part.
pub open spec fn is_exp_char(c: char) -> bool {
    c == 'e' || c == 'E'
}

/// The number of leading sign characters of `s`: one or zero.
pub open spec fn sign_len(s: Seq<char>) -> int {
    if s.len() > 0 && (s[0] == '+' || s[0] == '-') {
        1
    } else {
        0
    }
}

/// The index of the first exponent character of `s` at or after `i`, or
/// the length of `s` if there is none.
pub open spec fn find_exp(s: Seq<char>, i: int) -> int
    recommends
        0 <= i <= s.len(),
    decreases s.len() - i,
{
    if i < 0 || i >= s.len() {
        s.len() as int
    } else if is_exp_char(s[i]) {
        i
    } else {
        find_exp(s, i + 1)
    }
}

/// The index of the first `.` of `s` at or after `i`, or the length of
/// `s` if there is none.
pub open spec fn find_dot(s: Seq<char>, i: int) -> int
    recommends
        0 <= i <= s.len(),
    decreases s.len() - i,
{
    if i < 0 || i >= s.len() {
        s.len() as int
    } else if s[i] == '.' {
        i
    } else {
        find_dot(s, i + 1)
    }
}

/// Whether `m` is a mantissa: digits with at most one `.`, and at least
/// one digit.
pub open spec fn is_mantissa(m: Seq<char>) -> bool {
    let d = find_dot(m, 0);
    if d == m.len() {
        m.len() > 0 && all_digits(m)
    } else {
        m.len() > 1 && all_digits(m.take(d)) && all_digits(m.skip(d + 1))
    }
}

/// Whether `t` is an exponent part: `e` or `E`, an optional sign, then at
/// least one digit.
pub open spec fn is_exponent(t: Seq<char>) -> bool {
    t.len() >= 1 && is_exp_char(t[0]) && {
        let d = t.skip(1 + sign_len(t.skip(1)));
        d.len() > 0 && all_digits(d)
    }
}

/// Whether `b` is an unsigned number: a mantissa with an optional
/// exponent part.
pub open spec fn is_number(b: Seq<char>) -> bool {
    let e = find_exp(b, 0);
    if e == b.len() {
        is_mantissa(b)
    } else {
        is_mantissa(b.take(e)) && is_exponent(b.skip(e))
    }
}

/// The pattern `inf`.
pub open spec fn inf_pat() -> Seq<char> {
    seq!['i', 'n', 'f']
}

/// The pattern `infinity`.
pub open spec fn infinity_pat() -> Seq<char> {
    seq!['i', 'n', 'f', 'i', 'n', 'i', 't', 'y']
}

/// The pattern `nan`.
pub open spec fn nan_pat() -> Seq<char> {
    seq!['n', 'a', 'n']
}

/// Whether `s` reads as a floating-point literal, by the grammar std
/// documents: an optional sign, then `inf`, `infinity`, `nan` (in any
/// case) or a number.
pub open spec fn is_float_literal(s: Seq<char>) -> bool {
    let body = s.skip(sign_len(s));
    ||| matches_ci(body, inf_pat())
    ||| matches_ci(body, infinity_pat())
    ||| matches_ci(body, nan_pat())
    ||| is_number(body)
}

/// Whether `s` denotes a value below zero: a `-` sign in front of an
/// infinity, or of a number whose mantissa has a nonzero digit. A
/// negative zero and a signed `nan` do not count.
pub open spec fn denotes_negative(s: Seq<char>) -> bool {
    s.len() > 0 && s[0] == '-' && {
        let body = s.skip(1);
        ||| matches_ci(body, inf_pat())
        ||| matches_ci(body, infinity_pat())
        ||| (is_number(body) && has_nonzero_digit(body.take(find_exp(body, 0))))
    }
}

/// Whether `s` passes the temperature check: a floating-point literal
/// that does not denote a value below zero.
pub open spec fn temperature_ok(s: Seq<char>) -> bool {
    is_float_literal(s) && !denotes_negative(s)
}

/// The characters of `s`, as a vector.
pub(crate) fn to_chars(s: &str) -> (r: Vec<char>)
    ensures
        r@ == s@,
{
    let n = s.unicode_len();
    let mut r: Vec<char> = Vec::new();
    let mut i: usize = 0;
    while i < n
        invariant
            0 <= i <= n,
            n == s@.len(),
            r@ =~= s@.take(i as int),
        decreases n - i,
    {
        r.push(s.get_char(i));
        i += 1;
    }
    proof {
        assert(s@.take(n as int) =~= s@);
    }
    r
}

/// The characters of `v` from `from` (inclusive) to `to` (exclusive).
pub(crate) fn copy_range(v: &Vec<char>, from: usize, to: usize) -> (r: Vec<char>)
    requires
        from <= to <= v@.len(),
    ensures
        r@ == v@.subrange(from as int, to as int),
{
    let mut r: Vec<char> = Vec::new();
    let mut i: usize = from;
    while i < to
        invariant
            from <= i <= to <= v@.len(),
            r@ =~= v@.subrange(from as int, i as int),
        decreases to - i,
    {
        r.push(v[i]);
        i += 1;
    }
    r
}

/// Whether every character of `v` is a decimal digit.
fn all_digits_exec(v: &Vec<char>) -> (r: bool)
    ensures
        r == all_digits(v@),
{
    let n = v.len();
    let mut i: usize = 0;
    while i < n
        invariant
            0 <= i <= n,
            n == v@.len(),
            forall|j: int| 0 <= j < i ==> is_digit(#[trigger] v@[j]),
        decreases n - i,
    {
        let u = v[i] as u32;
        if u < 48 || u > 57 {
            return false;
        }
        i += 1;
    }
    true
}

/// Whether some character of `v` is a nonzero decimal digit.
fn has_nonzero_exec(v: &Vec<char>) -> (r: bool)
    ensures
        r == has_nonzero_digit(v@),
{
    let n = v.len();
    let mut i: usize = 0;
    while i < n
        invariant
            0 <= i <= n,
            n == v@.len(),
            forall|j: int| 0 <= j < i ==> !(49 <= #[trigger] v@[j] as u32 <= 57),
        decreases n - i,
    {
        let u = v[i] as u32;
        if 49 <= u && u <= 57 {
            return true;
        }
        i += 1;
    }
    false
}

/// Whether `a` reads as `b` up to ASCII case.
pub(crate) fn ci_eq(a: &Vec<char>, b: &Vec<char>) -> (r: bool)
    ensures
        r == matches_ci(a@, b@),
{
    let n = a.len();
    if n != b.len() {
        return false;
    }
    let mut i: usize = 0;
    while i < n
        invariant
            0 <= i <= n,
            n == a@.len(),
            n == b@.len(),
            forall|j: int| 0 <= j < i ==> lower_code(#[trigger] a@[j]) == lower_code(b@[j]),
        decreases n - i,
    {
        let ua = lower_exec(a[i]);
        let ub = lower_exec(b[i]);
        if ua != ub {
            return false;
        }
        i += 1;
    }
    true
}

/// The character code of `c` with an upper-case ASCII letter lowered.
fn lower_exec(c: char) -> (r: u32)
    ensures
        r == lower_code(c),
{
    let u = c as u32;
    if 65 <= u && u <= 90 {
        u + 32
    } else {
        u
    }
}

/// The index of the first exponent character of `v`, or its length.
fn find_exp_exec(v: &Vec<char>) -> (r: usize)
    ensures
        r == find_exp(v@, 0),
        r <= v@.len(),
{
    let n = v.len();
    let mut i: usize = 0;
    while i < n
        invariant
            0 <= i <= n,
            n == v@.len(),
            find_exp(v@, 0) == find_exp(v@, i as int),
        decreases n - i,
    {
        let c = v[i];
        if c == 'e' || c == 'E' {
            return i;
        }
        proof {
            assert(find_exp(v@, i as int) == find_exp(v@, i + 1));
        }
        i += 1;
    }
    n
}

/// The index of the first `.` of `v`, or its length.
fn find_dot_exec(v: &Vec<char>) -> (r: usize)
    ensures
        r == find_dot(v@, 0),
        r <= v@.len(),
{
    let n = v.len();
    let mut i: usize = 0;
    while i < n
        invariant
            0 <= i <= n,
            n == v@.len(),
            find_dot(v@, 0) == find_dot(v@, i as int),
        decreases n - i,
    {
        let c = v[i];
        if c == '.' {
            return i;
        }
        proof {
            assert(find_dot(v@, i as int) == find_dot(v@, i + 1));
        }
        i += 1;
    }
    n
}

/// Whether `m` is a mantissa.
fn mantissa_ok(m: &Vec<char>) -> (r: bool)
    ensures
        r == is_mantissa(m@),
{
    let n = m.len();
    let d = find_dot_exec(m);
    if d == n {
        n > 0 && all_digits_exec(m)
    } else {
        let a = copy_range(m, 0, d);
        let b = copy_range(m, d + 1, n);
        proof {
            assert(a@ =~= m@.take(d as int));
            assert(b@ =~= m@.skip(d + 1));
        }
        let whole = all_digits_exec(&a);
        let frac = all_digits_exec(&b);
        n > 1 && whole && frac
    }
}

/// Whether `t` is an exponent part.
fn exponent_ok(t: &Vec<char>) -> (r: bool)
    ensures
        r == is_exponent(t@),
{
    let n = t.len();
    if n == 0 {
        return false;
    }
    let head = t[0];
    if !(head == 'e' || head == 'E') {
        return false;
    }
    let s2: usize = if n > 1 && (t[1] == '+' || t[1] == '-') {
        1
    } else {
        0
    };
    proof {
        assert(t@.skip(1).len() == n - 1);
        if n > 1 {
            assert(t@.skip(1)[0] == t@[1]);
        }
        assert(sign_len(t@.skip(1)) == s2 as int);
    }
    let d = copy_range(t, 1 + s2, n);
    proof {
        assert(d@ =~= t@.skip(1 + s2 as int));
    }
    let digits_ok = all_digits_exec(&d);
    d.len() > 0 && digits_ok
}

/// Checks that `s` reads as a non-negative floating-point literal: the
/// grammar std documents for float parsing, with a value at or above
/// zero. `nan` passes; a negative zero passes; `-inf` and any negative
/// number fail.
pub fn check_nonneg_float(s: &str) -> (r: bool)
    ensures
        r == temperature_ok(s@),
{
    let cs = to_chars(s);
    let n = cs.len();
    let sign: usize = if n > 0 && (cs[0] == '+' || cs[0] == '-') {
        1
    } else {
        0
    };
    let neg = n > 0 && cs[0] == '-';
    let body = copy_range(&cs, sign, n);
    proof {
        assert(sign_len(s@) == sign as int);
        assert(body@ =~= s@.skip(sign as int));
        if neg {
            assert(body@ =~= s@.skip(1));
        }
    }
    let inf_p: Vec<char> = vec!['i', 'n', 'f'];
    let infinity_p: Vec<char> = vec!['i', 'n', 'f', 'i', 'n', 'i', 't', 'y'];
    let nan_p: Vec<char> = vec!['n', 'a', 'n'];
    proof {
        assert(inf_p@ =~= inf_pat());
        assert(infinity_p@ =~= infinity_pat());
        assert(nan_p@ =~= nan_pat());
    }
    let m_inf = ci_eq(&body, &inf_p);
    let m_infinity = ci_eq(&body, &infinity_p);
    let m_nan = ci_eq(&body, &nan_p);
    let e = find_exp_exec(&body);
    let mant = copy_range(&body, 0, e);
    proof {
        assert(mant@ =~= body@.take(e as int));
    }
    let m_ok = mantissa_ok(&mant);
    let num_ok: bool = if e == body.len() {
        proof {
            assert(body@.take(e as int) =~= body@);
        }
        m_ok
    } else {
        let t = copy_range(&body, e, body.len());
        proof {
            assert(t@ =~= body@.skip(e as int));
        }
        let e_ok = exponent_ok(&t);
        m_ok && e_ok
    };
    let lit = m_inf || m_infinity || m_nan || num_ok;
    let nz = has_nonzero_exec(&mant);
    let negative = neg && (m_inf || m_infinity || (num_ok && nz));
    lit && !negative
}

/// The value of a decimal digit string.
pub open spec fn dec_value(s: Seq<char>) -> int
    decreases s.len(),
{
    if s.len() == 0 {
        0
    } else {
        dec_value(s.drop_last()) * 10 + (s.last() as u32 - 48)
    }
}

/// Whether `s` reads as an unsigned decimal integer: an optional `+`,
/// then at least one digit, as std documents for unsigned parsing.
pub open spec fn is_uint_literal(s: Seq<char>) -> bool {
    let d = s.skip(plus_len(s));
    d.len() > 0 && all_digits(d)
}

/// The number of leading `+` characters of `s`: one or zero.
pub open spec fn plus_len(s: Seq<char>) -> int {
    if s.len() > 0 && s[0] == '+' {
        1
    } else {
        0
    }
}

/// The value `s` denotes, digits after an optional `+`.
pub open spec fn uint_value(s: Seq<char>) -> int {
    dec_value(s.skip(plus_len(s)))
}

/// The value of a digit string is never negative.
proof fn lemma_dec_value_nonneg(s: Seq<char>)
    requires
        all_digits(s),
    ensures
        dec_value(s) >= 0,
    decreases s.len(),
{
    if s.len() > 0 {
        assert(all_digits(s.drop_last())) by {
            assert(forall|i: int|
                0 <= i < s.len() - 1 ==> #[trigger] s.drop_last()[i] == s[i]);
        }
        lemma_dec_value_nonneg(s.drop_last());
    }
}

/// A prefix of a digit string never has a larger value than the whole.
proof fn lemma_dec_value_prefix_le(s: Seq<char>, k: int)
    requires
        all_digits(s),
        0 <= k <= s.len(),
    ensures
        dec_value(s.take(k)) <= dec_value(s),
    decreases s.len() - k,
{
    if k == s.len() {
        assert(s.take(k) =~= s);
    } else {
        assert(all_digits(s.take(k))) by {
            assert(forall|i: int| 0 <= i < k ==> #[trigger] s.take(k)[i] == s[i]);
        }
        assert(s.take(k + 1).drop_last() =~= s.take(k));
        assert(s.take(k + 1).last() == s[k]);
        lemma_dec_value_nonneg(s.take(k));
        assert(dec_value(s.take(k + 1)) == dec_value(s.take(k)) * 10 + (s[k] as u32 - 48));
        lemma_dec_value_prefix_le(s, k + 1);
    }
}

/// Parses a non-negative decimal integer, as the tool recursion limit
/// requires: `Some` exactly when `s` is an unsigned decimal literal whose
/// value fits in `usize`.
pub fn parse_nonneg_int(s: &str) -> (r: Option<usize>)
    ensures
        r is Some <==> is_uint_literal(s@) && uint_value(s@) <= usize::MAX,
        r matches Some(v) ==> v == uint_value(s@),
{
    let cs = to_chars(s);
    let n = cs.len();
    let plus: usize = if n > 0 && cs[0] == '+' {
        1
    } else {
        0
    };
    let d = copy_range(&cs, plus, n);
    proof {
        assert(plus_len(s@) == plus as int);
        assert(d@ =~= s@.skip(plus as int));
    }
    if d.len() == 0 {
        return None;
    }
    if !all_digits_exec(&d) {
        return None;
    }
    let m = d.len();
    let mut v: usize = 0;
    let mut i: usize = 0;
    proof {
        assert(d@.take(0) =~= Seq::<char>::empty());
    }
    while i < m
        invariant
            0 <= i <= m,
            m == d@.len(),
            all_digits(d@),
            d@ == s@.skip(plus_len(s@)),
            v == dec_value(d@.take(i as int)),
        decreases m - i,
    {
        proof {
            assert(is_digit(d@[i as int]));
        }
        let u = d[i] as u32;
        let dig = (u - 48) as usize;
        proof {
            assert(0 <= dig <= 9);
        }
        if v > (usize::MAX - dig) / 10 {
            proof {
                assert(d@.take(i + 1).drop_last() =~= d@.take(i as int));
                assert(d@.take(i + 1).last() == d@[i as int]);
                assert(dec_value(d@.take(i + 1)) == v * 10 + dig);
                assert(v * 10 + dig > usize::MAX) by {
                    assert(v >= (usize::MAX - dig) / 10 + 1);
                    assert(((usize::MAX - dig) / 10 + 1) * 10 == ((usize::MAX - dig) / 10) * 10
                        + 10);
                    assert(((usize::MAX - dig) / 10) * 10 + (usize::MAX - dig) % 10 == (
                    usize::MAX - dig));
                };
                lemma_dec_value_prefix_le(d@, i + 1);
                assert(dec_value(d@) > usize::MAX);
                assert(uint_value(s@) == dec_value(d@));
            }
            return None;
        }
        proof {
            assert(v <= (usize::MAX - dig) / 10);
            assert(v * 10 <= ((usize::MAX - dig) / 10) * 10);
            assert(((usize::MAX - dig) / 10) * 10 + (usize::MAX - dig) % 10 == (usize::MAX - dig));
            assert(v * 10 + dig <= usize::MAX);
            assert(d@.take(i + 1).drop_last() =~= d@.take(i as int));
            assert(d@.take(i + 1).last() == d@[i as int]);
        }
        v = v * 10 + dig;
        i += 1;
    }
    proof {
        assert(d@.take(m as int) =~= d@);
    }
    Some(v)
}

} // verus!
